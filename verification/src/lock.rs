//! The lock manager: an exclusive-writer lock record and a liveness ledger of
//! transaction identifiers, both kept in one partition of the store.

use vstd::prelude::*;
use crate::State;
use crate::error::{
    EngineError,
    StorageError,
    clock_failure,
    err_into,
    outcome,
    storage_msg,
    store_failure,
};
use crate::substrate::{load, now_millis, store, store_direct};
use crate::codec::{decode_lock, decode_txdata, encode_lock, encode_txdata};

verus! {

/// One entry of the liveness ledger.
#[derive(Debug, Clone, Copy, PartialEq, Eq)]
pub struct TxData {
    pub txid: u64,
    pub alive: bool,
    pub created_at: u128,
}

/// The singleton lock record.
#[derive(Debug, Clone, Copy, PartialEq, Eq)]
pub struct Lock {
    pub lock_txid: Option<u64>,
    pub lock_created_at: u128,
    pub gc_txid: Option<u64>,
}

impl Default for Lock {
    fn default() -> (lock: Lock)
        ensures
            lock == Lock::vacant(),
    {
        Lock { lock_txid: None, lock_created_at: 0, gc_txid: None }
    }
}

impl Lock {
    /// The record of a store in which no lock was ever taken.
    pub open spec fn vacant() -> Lock {
        Lock { lock_txid: None, lock_created_at: 0, gc_txid: None }
    }
}

/// What `acquire` tells its caller.
#[derive(Debug, Clone, Copy, PartialEq, Eq)]
pub enum LockAcquired {
    Success { txid: u64, autocommit: bool },
    RollbackAndRetry { lock_txid: u64 },
}

/// Key of the lock record: the ASCII text `lock/`.
pub open spec fn lock_key_bytes() -> Seq<u8> {
    seq![108u8, 111u8, 99u8, 107u8, 47u8]
}

/// Big-endian bytes of a txid.
pub open spec fn be_bytes(txid: u64) -> Seq<u8> {
    seq![
        (txid >> 56) as u8,
        (txid >> 48) as u8,
        (txid >> 40) as u8,
        (txid >> 32) as u8,
        (txid >> 24) as u8,
        (txid >> 16) as u8,
        (txid >> 8) as u8,
        txid as u8,
    ]
}

/// Key of the ledger entry of `txid`: the ASCII text `txd/`, then the txid in
/// eight big-endian bytes.
pub open spec fn txdata_key_bytes(txid: u64) -> Seq<u8> {
    seq![116u8, 120u8, 100u8, 47u8] + be_bytes(txid)
}

/// The key of the lock record.
pub fn lock_key() -> (key: Vec<u8>)
    ensures
        key@ == lock_key_bytes(),
{
    let key = vec![108u8, 111u8, 99u8, 107u8, 47u8];
    assert(key@ =~= lock_key_bytes());
    key
}

/// The key of the ledger entry of `txid`.
pub fn get_txdata_key(txid: u64) -> (key: Vec<u8>)
    ensures
        key@ == txdata_key_bytes(txid),
        key@.len() == 12,
        key@ != lock_key_bytes(),
{
    let key = vec![
        116u8,
        120u8,
        100u8,
        47u8,
        (txid >> 56) as u8,
        (txid >> 48) as u8,
        (txid >> 40) as u8,
        (txid >> 32) as u8,
        (txid >> 24) as u8,
        (txid >> 16) as u8,
        (txid >> 8) as u8,
        txid as u8,
    ];
    assert(key@ =~= txdata_key_bytes(txid));
    assert(lock_key_bytes().len() == 5);
    key
}

/// Whether a transaction or a lock that began at `since` has reached its
/// timeout at `now`. Without a timeout nothing expires.
pub open spec fn timed_out(since: u128, now: u128, tx_timeout: Option<u128>) -> bool {
    tx_timeout matches Some(limit) && now >= limit + since
}

/// Whether `txid` lies at or below the collection watermark.
pub open spec fn collected(txid: u64, gc_txid: Option<u64>) -> bool {
    gc_txid matches Some(mark) && txid <= mark
}

/// Decides `timed_out`.
pub fn is_timed_out(since: u128, now: u128, tx_timeout: Option<u128>) -> (expired: bool)
    ensures
        expired == timed_out(since, now, tx_timeout),
{
    match tx_timeout {
        Some(limit) => match limit.checked_add(since) {
            Some(deadline) => now >= deadline,
            None => false,
        },
        None => false,
    }
}

/// Decides `collected`.
pub fn is_collected(txid: u64, gc_txid: Option<u64>) -> (stale: bool)
    ensures
        stale == collected(txid, gc_txid),
{
    match gc_txid {
        Some(mark) => txid <= mark,
        None => false,
    }
}

/// The ledger entry that `register` writes.
pub open spec fn fresh_entry(txid: u64, created_at: u128) -> TxData {
    TxData { txid, alive: true, created_at }
}

/// The entry once its transaction has ended.
pub open spec fn retired(tx: TxData) -> TxData {
    TxData { txid: tx.txid, alive: false, created_at: tx.created_at }
}

/// What `fetch` answers on a given lock record and clock reading.
pub open spec fn fetch_outcome(
    lock: Lock,
    txid: u64,
    created_at: u128,
    now: u128,
    tx_timeout: Option<u128>,
) -> Result<Option<u64>, Seq<char>> {
    if timed_out(created_at, now, tx_timeout) {
        Err("fetch failed - expired transaction has used (timeout)"@)
    } else if collected(txid, lock.gc_txid) {
        Err("fetch failed - expired transaction has used (txid)"@)
    } else {
        Ok(lock.lock_txid)
    }
}

/// What `acquire` answers on a given lock record and clock reading, and the
/// lock record it writes, if any.
pub open spec fn acquire_outcome(
    lock: Lock,
    state: State,
    now: u128,
    tx_timeout: Option<u128>,
) -> Result<(LockAcquired, Option<Lock>), Seq<char>> {
    match state {
        State::Idle => Err("conflict - cannot acquire lock from idle state"@),
        State::Transaction { txid, created_at, autocommit } => {
            if timed_out(created_at, now, tx_timeout) {
                Err("acquire failed - expired transaction has used (timeout)"@)
            } else if collected(txid, lock.gc_txid) {
                Err("acquire failed - expired transaction has used (txid)"@)
            } else {
                match lock.lock_txid {
                    None => Ok(
                        (
                            LockAcquired::Success { txid, autocommit },
                            Some(
                                Lock {
                                    lock_txid: Some(txid),
                                    lock_created_at: created_at,
                                    gc_txid: lock.gc_txid,
                                },
                            ),
                        ),
                    ),
                    Some(holder) => {
                        if holder == txid {
                            Ok((LockAcquired::Success { txid, autocommit }, None))
                        } else if timed_out(lock.lock_created_at, now, tx_timeout) {
                            Ok((LockAcquired::RollbackAndRetry { lock_txid: holder }, None))
                        } else {
                            Err("database is locked"@)
                        }
                    },
                }
            }
        },
    }
}

/// The lock record that `release` writes, if any: the holder cleared and the
/// watermark kept, where `txid` is the holder.
pub open spec fn release_outcome(lock: Lock, txid: u64) -> Option<Lock> {
    if lock.lock_txid == Some(txid) {
        Some(Lock { lock_txid: None, lock_created_at: 0, gc_txid: lock.gc_txid })
    } else {
        None
    }
}

/// What `unregister` does with the ledger entry it found.
pub open spec fn unregister_outcome(found: Option<TxData>) -> Result<TxData, Seq<char>> {
    match found {
        Some(tx) => Ok(retired(tx)),
        None => Err("conflict - lock does not exist"@),
    }
}

/// Builds the ledger entry of a transaction that starts at `created_at`.
pub fn new_entry(txid: u64, created_at: u128) -> (tx: TxData)
    ensures
        tx == fresh_entry(txid, created_at),
{
    TxData { txid, alive: true, created_at }
}

/// Marks a ledger entry as ended.
pub fn retire(tx: TxData) -> (done: TxData)
    ensures
        done == retired(tx),
{
    TxData { txid: tx.txid, alive: false, created_at: tx.created_at }
}

/// The read-only liveness check and watermark lookup of `fetch`, on a lock
/// record and a clock reading that the caller has in hand.
pub fn fetch_with(
    lock: &Lock,
    txid: u64,
    created_at: u128,
    now: u128,
    tx_timeout: Option<u128>,
) -> (r: Result<Option<u64>, EngineError>)
    ensures
        outcome(r) == fetch_outcome(*lock, txid, created_at, now, tx_timeout),
{
    if is_timed_out(created_at, now, tx_timeout) {
        Err(storage_msg("fetch failed - expired transaction has used (timeout)"))
    } else if is_collected(txid, lock.gc_txid) {
        Err(storage_msg("fetch failed - expired transaction has used (txid)"))
    } else {
        Ok(lock.lock_txid)
    }
}

/// The decision of `acquire`, on a lock record and a clock reading that the
/// caller has in hand: the answer, and the lock record to write, if any.
pub fn acquire_with(lock: &Lock, state: &State, now: u128, tx_timeout: Option<u128>) -> (r: Result<
    (LockAcquired, Option<Lock>),
    EngineError,
>)
    ensures
        outcome(r) == acquire_outcome(*lock, *state, now, tx_timeout),
{
    match state {
        State::Idle => Err(storage_msg("conflict - cannot acquire lock from idle state")),
        State::Transaction { txid, created_at, autocommit } => {
            let txid: u64 = *txid;
            let created_at: u128 = *created_at;
            let autocommit = *autocommit;
            if is_timed_out(created_at, now, tx_timeout) {
                Err(storage_msg("acquire failed - expired transaction has used (timeout)"))
            } else if is_collected(txid, lock.gc_txid) {
                Err(storage_msg("acquire failed - expired transaction has used (txid)"))
            } else {
                match lock.lock_txid {
                    None => {
                        let record = Lock {
                            lock_txid: Some(txid),
                            lock_created_at: created_at,
                            gc_txid: lock.gc_txid,
                        };
                        Ok((LockAcquired::Success { txid, autocommit }, Some(record)))
                    },
                    Some(holder) => {
                        if holder == txid {
                            Ok((LockAcquired::Success { txid, autocommit }, None))
                        } else if is_timed_out(lock.lock_created_at, now, tx_timeout) {
                            Ok((LockAcquired::RollbackAndRetry { lock_txid: holder }, None))
                        } else {
                            Err(storage_msg("database is locked"))
                        }
                    },
                }
            }
        },
    }
}

/// The decision of `release` on the lock record: what to write, if anything.
pub fn release_with(lock: &Lock, txid: u64) -> (record: Option<Lock>)
    ensures
        record == release_outcome(*lock, txid),
{
    match lock.lock_txid {
        Some(holder) => {
            if holder == txid {
                Some(Lock { lock_txid: None, lock_created_at: 0, gc_txid: lock.gc_txid })
            } else {
                None
            }
        },
        None => None,
    }
}

/// The decision of `unregister` on the ledger entry it found.
pub fn unregister_with(found: Option<TxData>) -> (r: Result<TxData, EngineError>)
    ensures
        outcome(r) == unregister_outcome(found),
{
    match found {
        Some(tx) => Ok(retire(tx)),
        None => Err(storage_msg("conflict - lock does not exist")),
    }
}

/// The lock record that stored bytes stand for; a store that holds none has
/// the vacant record.
pub fn lock_from(found: Option<Vec<u8>>) -> (r: Result<Lock, StorageError>)
    ensures
        found is None ==> r == Ok::<Lock, StorageError>(Lock::vacant()),
        found matches Some(bytes) ==> match r {
            Ok(lock) => crate::codec::lock_decoding(bytes@) == Some(
                (lock.lock_txid, lock.lock_created_at, lock.gc_txid),
            ),
            Err(e) => crate::codec::lock_decoding(bytes@) is None && e is Bincode,
        },
{
    match found {
        Some(bytes) => decode_lock(bytes.as_slice()),
        None => Ok(Lock::default()),
    }
}

/// The ledger entry that stored bytes stand for, if any are stored.
pub fn entry_from(found: Option<Vec<u8>>) -> (r: Result<Option<TxData>, StorageError>)
    ensures
        found is None ==> r == Ok::<Option<TxData>, StorageError>(None),
        found matches Some(bytes) ==> match r {
            Ok(entry) => entry matches Some(tx) && crate::codec::txdata_decoding(bytes@) == Some(
                (tx.txid, tx.alive, tx.created_at),
            ),
            Err(e) => crate::codec::txdata_decoding(bytes@) is None && e is Bincode,
        },
{
    match found {
        Some(bytes) => match decode_txdata(bytes.as_slice()) {
            Ok(tx) => Ok(Some(tx)),
            Err(e) => Err(e),
        },
        None => Ok(None),
    }
}

/// Loads the lock record of the partition. It fails only where the store
/// fails to read or holds bytes that are no lock record.
fn load_lock(partition: &fjall::TransactionalPartitionHandle) -> (r: Result<Lock, StorageError>)
    ensures
        r matches Err(e) ==> e is Fjall || e is Bincode,
{
    let key = lock_key();
    match load(partition, key.as_slice()) {
        Ok(found) => lock_from(found),
        Err(e) => Err(e),
    }
}

/// Writes the lock record of the partition. It fails only where the store
/// fails to write.
fn save_lock(partition: &fjall::TransactionalPartitionHandle, lock: &Lock) -> (r: Result<
    (),
    StorageError,
>)
    ensures
        r matches Err(e) ==> e is Fjall,
{
    let key = lock_key();
    match encode_lock(lock) {
        Ok(bytes) => store(partition, key.as_slice(), bytes.as_slice()),
        Err(e) => Err(e),
    }
}

/// Writes the ledger entry of `tx.txid` in a transaction of the store. It
/// fails only where the store fails to write.
fn save_entry(partition: &fjall::TransactionalPartitionHandle, tx: &TxData) -> (r: Result<
    (),
    StorageError,
>)
    ensures
        r matches Err(e) ==> e is Fjall,
{
    let key = get_txdata_key(tx.txid);
    match encode_txdata(tx) {
        Ok(bytes) => store(partition, key.as_slice(), bytes.as_slice()),
        Err(e) => Err(e),
    }
}

/// Loads the ledger entry of `txid`, if the partition holds one. It fails
/// only where the store fails to read or holds bytes that are no entry.
fn load_entry(partition: &fjall::TransactionalPartitionHandle, txid: u64) -> (r: Result<
    Option<TxData>,
    StorageError,
>)
    ensures
        r matches Err(e) ==> e is Fjall || e is Bincode,
{
    let key = get_txdata_key(txid);
    match load(partition, key.as_slice()) {
        Ok(found) => entry_from(found),
        Err(e) => Err(e),
    }
}

/// Creates the ledger entry of `txid`, alive and stamped with the present
/// time, and returns the txid with that time. The lock record is not touched.
/// It meets no conflict: it fails only where the clock or the store fails.
pub fn register(partition: &fjall::TransactionalPartitionHandle, txid: u64) -> (r: Result<
    (u64, u128),
    EngineError,
>)
    ensures
        r matches Ok(registered) ==> registered.0 == txid,
        r matches Err(e) ==> clock_failure(e) || store_failure(e),
{
    let key = get_txdata_key(txid);
    let created_at: u128 = match now_millis() {
        Ok(now) => now,
        Err(e) => {
            return Err(err_into(e));
        },
    };
    let tx = new_entry(txid, created_at);
    let bytes = match encode_txdata(&tx) {
        Ok(bytes) => bytes,
        Err(e) => {
            return Err(err_into(e));
        },
    };
    match store_direct(partition, key.as_slice(), bytes.as_slice()) {
        Ok(()) => Ok((txid, created_at)),
        Err(e) => Err(err_into(e)),
    }
}

/// Looks up the current lock holder for the transaction `txid` that began at
/// `created_at`. Writes nothing. An answer, the holder or a conflict, is one
/// that `fetch_outcome` gives for the lock record and the clock reading that
/// were met; any other failure is one of the store or of the clock.
pub fn fetch(
    partition: &fjall::TransactionalPartitionHandle,
    txid: u64,
    created_at: u128,
    tx_timeout: Option<u128>,
) -> (r: Result<Option<u64>, EngineError>)
    ensures
        r matches Ok(holder) ==> exists|lock: Lock, now: u128| #[trigger]
            fetch_outcome(lock, txid, created_at, now, tx_timeout) == Ok::<
                Option<u64>,
                Seq<char>,
            >(holder),
        r matches Err(e) ==> store_failure(e) || clock_failure(e) || exists|
            lock: Lock,
            now: u128,
        | #[trigger]
            fetch_outcome(lock, txid, created_at, now, tx_timeout) == Err::<
                Option<u64>,
                Seq<char>,
            >(e.text()),
{
    let lock = match load_lock(partition) {
        Ok(lock) => lock,
        Err(e) => {
            return Err(err_into(e));
        },
    };
    let now: u128 = match now_millis() {
        Ok(now) => now,
        Err(e) => {
            return Err(err_into(e));
        },
    };
    fetch_with(&lock, txid, created_at, now, tx_timeout)
}

/// Tries to take the exclusive-writer lock for the transaction in `state`.
/// From `Idle` it fails at once. Otherwise an answer is one that
/// `acquire_outcome` gives for the lock record and the clock reading that
/// were met, and the lock record that goes with it has been written. A
/// failure is a conflict that `acquire_outcome` gives, or one of the store or
/// of the clock.
pub fn acquire(
    tree: &fjall::TransactionalPartitionHandle,
    state: &State,
    tx_timeout: Option<u128>,
) -> (r: Result<LockAcquired, EngineError>)
    ensures
        *state is Idle ==> outcome(r) == Err::<LockAcquired, Seq<char>>(
            "conflict - cannot acquire lock from idle state"@,
        ),
        r matches Ok(acquired) ==> exists|lock: Lock, now: u128|
            (#[trigger] acquire_outcome(lock, *state, now, tx_timeout)) matches Ok(decided)
                && decided.0 == acquired,
        r matches Err(e) ==> store_failure(e) || clock_failure(e) || exists|
            lock: Lock,
            now: u128,
        | #[trigger]
            acquire_outcome(lock, *state, now, tx_timeout) == Err::<
                (LockAcquired, Option<Lock>),
                Seq<char>,
            >(e.text()),
{
    if let State::Idle = state {
        assert(acquire_outcome(Lock::vacant(), *state, 0, tx_timeout) == Err::<
            (LockAcquired, Option<Lock>),
            Seq<char>,
        >("conflict - cannot acquire lock from idle state"@));
        return Err(storage_msg("conflict - cannot acquire lock from idle state"));
    }
    let lock = match load_lock(tree) {
        Ok(lock) => lock,
        Err(e) => {
            return Err(err_into(e));
        },
    };
    let now: u128 = match now_millis() {
        Ok(now) => now,
        Err(e) => {
            return Err(err_into(e));
        },
    };
    match acquire_with(&lock, state, now, tx_timeout) {
        Ok((acquired, record)) => {
            if let Some(record) = record {
                if let Err(e) = save_lock(tree, &record) {
                    return Err(err_into(e));
                }
            }
            Ok(acquired)
        },
        Err(e) => Err(e),
    }
}

/// Ends the registration of `txid`: its ledger entry is written back with
/// `alive` false. Fails with "conflict - lock does not exist" where the
/// ledger holds no entry of `txid`, and otherwise only where the store fails.
pub fn unregister(tree: &fjall::TransactionalPartitionHandle, txid: u64) -> (r: Result<
    (),
    EngineError,
>)
    ensures
        r matches Err(e) ==> store_failure(e) || unregister_outcome(None) == Err::<
            TxData,
            Seq<char>,
        >(e.text()),
{
    let found = match load_entry(tree, txid) {
        Ok(found) => found,
        Err(e) => {
            return Err(err_into(e));
        },
    };
    match unregister_with(found) {
        Ok(tx) => match save_entry(tree, &tx) {
            Ok(()) => Ok(()),
            Err(e) => Err(err_into(e)),
        },
        Err(e) => Err(e),
    }
}

/// Gives the lock up where `txid` holds it, keeping the watermark, and ends
/// the registration of `txid` where the ledger holds one; where it holds
/// none, that is no failure. It meets no conflict: it fails only where the
/// store fails.
pub fn release(tree: &fjall::TransactionalPartitionHandle, txid: u64) -> (r: Result<
    (),
    EngineError,
>)
    ensures
        r matches Err(e) ==> store_failure(e),
{
    let lock = match load_lock(tree) {
        Ok(lock) => lock,
        Err(e) => {
            return Err(err_into(e));
        },
    };
    if let Some(record) = release_with(&lock, txid) {
        if let Err(e) = save_lock(tree, &record) {
            return Err(err_into(e));
        }
    }
    let found = match load_entry(tree, txid) {
        Ok(found) => found,
        Err(e) => {
            return Err(err_into(e));
        },
    };
    match found {
        Some(tx) => {
            let done = retire(tx);
            match save_entry(tree, &done) {
                Ok(()) => Ok(()),
                Err(e) => Err(err_into(e)),
            }
        },
        None => Ok(()),
    }
}

} // verus!
