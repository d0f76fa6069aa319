//! The lock partition as a mathematical state, and the laws that the lock
//! manager's decisions obey on it.

use vstd::prelude::*;
use crate::State;
use crate::lock::{
    Lock,
    LockAcquired,
    TxData,
    acquire_outcome,
    be_bytes,
    collected,
    fetch_outcome,
    fresh_entry,
    lock_key_bytes,
    release_outcome,
    retired,
    timed_out,
    txdata_key_bytes,
    unregister_outcome,
};

verus! {

/// What the lock partition holds: the lock record and, by txid, the ledger.
pub struct Ledger {
    pub lock: Lock,
    pub entries: Map<u64, TxData>,
}

/// The state after `register`.
pub open spec fn after_register(s: Ledger, txid: u64, created_at: u128) -> Ledger {
    Ledger { lock: s.lock, entries: s.entries.insert(txid, fresh_entry(txid, created_at)) }
}

/// The state after `acquire`: the lock record that the decision writes, if
/// any, replaces the old one.
pub open spec fn after_acquire(s: Ledger, state: State, now: u128, tx_timeout: Option<u128>) -> Ledger {
    match acquire_outcome(s.lock, state, now, tx_timeout) {
        Ok((_, Some(record))) => Ledger { lock: record, entries: s.entries },
        _ => s,
    }
}

/// The state after `release`.
pub open spec fn after_release(s: Ledger, txid: u64) -> Ledger {
    Ledger {
        lock: match release_outcome(s.lock, txid) {
            Some(record) => record,
            None => s.lock,
        },
        entries: if s.entries.contains_key(txid) {
            s.entries.insert(txid, retired(s.entries[txid]))
        } else {
            s.entries
        },
    }
}

/// The state after `unregister`, or its failure.
pub open spec fn after_unregister(s: Ledger, txid: u64) -> Result<Ledger, Seq<char>> {
    let found = if s.entries.contains_key(txid) {
        Some(s.entries[txid])
    } else {
        None
    };
    match unregister_outcome(found) {
        Ok(done) => Ok(Ledger { lock: s.lock, entries: s.entries.insert(txid, done) }),
        Err(reason) => Err(reason),
    }
}

/// Whether the transaction in `state` is open and neither timed out at `now`
/// nor collected under `lock`.
pub open spec fn live(state: State, lock: Lock, now: u128, tx_timeout: Option<u128>) -> bool {
    state matches State::Transaction { txid, created_at, .. } && !timed_out(
        created_at,
        now,
        tx_timeout,
    ) && !collected(txid, lock.gc_txid)
}

/// The ledger keys of two different txids differ, and none of them is the key
/// of the lock record: the ledger and the lock record never overwrite each
/// other in the store.
pub proof fn lemma_keys_distinct(a: u64, b: u64)
    ensures
        txdata_key_bytes(a) != lock_key_bytes(),
        a != b ==> txdata_key_bytes(a) != txdata_key_bytes(b),
{
    assert(txdata_key_bytes(a).len() == 12);
    assert(lock_key_bytes().len() == 5);
    if a != b && txdata_key_bytes(a) == txdata_key_bytes(b) {
        let ka = txdata_key_bytes(a);
        let kb = txdata_key_bytes(b);
        assert(ka[4] == kb[4] && ka[5] == kb[5] && ka[6] == kb[6] && ka[7] == kb[7] && ka[8]
            == kb[8] && ka[9] == kb[9] && ka[10] == kb[10] && ka[11] == kb[11]);
        assert(be_bytes(a)[0] == ka[4] && be_bytes(b)[0] == kb[4]);
        assert(a == b) by (bit_vector)
            requires
                (a >> 56) as u8 == (b >> 56) as u8,
                (a >> 48) as u8 == (b >> 48) as u8,
                (a >> 40) as u8 == (b >> 40) as u8,
                (a >> 32) as u8 == (b >> 32) as u8,
                (a >> 24) as u8 == (b >> 24) as u8,
                (a >> 16) as u8 == (b >> 16) as u8,
                (a >> 8) as u8 == (b >> 8) as u8,
                a as u8 == b as u8,
        ;
    }
}

/// Whatever the partition holds, the one write of `register`, a ledger entry
/// under the key of its txid, leaves what is stored under the key of the lock
/// record as it was.
pub proof fn lemma_register_write_keeps_lock_record(
    contents: Map<Seq<u8>, Seq<u8>>,
    txid: u64,
    created_at: u128,
)
    ensures
        ({
            let written = contents.insert(
                txdata_key_bytes(txid),
                crate::codec::txdata_bytes(fresh_entry(txid, created_at)),
            );
            &&& written.contains_key(lock_key_bytes()) == contents.contains_key(lock_key_bytes())
            &&& contents.contains_key(lock_key_bytes()) ==> written[lock_key_bytes()]
                == contents[lock_key_bytes()]
        }),
{
    lemma_keys_distinct(txid, txid);
}

/// Registering a transaction leaves the lock record as it was, so a `fetch`
/// right after it answers as it would have before.
pub proof fn lemma_register_keeps_holder(
    s: Ledger,
    registered: u64,
    registered_at: u128,
    txid: u64,
    created_at: u128,
    now: u128,
    tx_timeout: Option<u128>,
)
    ensures
        after_register(s, registered, registered_at).lock == s.lock,
        fetch_outcome(
            after_register(s, registered, registered_at).lock,
            txid,
            created_at,
            now,
            tx_timeout,
        ) == fetch_outcome(s.lock, txid, created_at, now, tx_timeout),
{
}

/// A live holder that acquires again succeeds, and the lock record, with the
/// time at which it was taken, stays as it was.
pub proof fn lemma_acquire_idempotent(
    s: Ledger,
    txid: u64,
    created_at: u128,
    autocommit: bool,
    now: u128,
    tx_timeout: Option<u128>,
)
    requires
        s.lock.lock_txid == Some(txid),
        live(State::Transaction { txid, created_at, autocommit }, s.lock, now, tx_timeout),
    ensures
        acquire_outcome(
            s.lock,
            State::Transaction { txid, created_at, autocommit },
            now,
            tx_timeout,
        ) == Ok::<(LockAcquired, Option<Lock>), Seq<char>>(
            (LockAcquired::Success { txid, autocommit }, None),
        ),
        after_acquire(s, State::Transaction { txid, created_at, autocommit }, now, tx_timeout)
            == s,
{
}

/// After one transaction has acquired the lock, another live transaction that
/// tries while the lock has not timed out is told that the database is
/// locked, and the lock record stays as it was.
pub proof fn lemma_single_writer(
    s: Ledger,
    first: State,
    first_now: u128,
    second: State,
    second_now: u128,
    tx_timeout: Option<u128>,
)
    requires
        acquire_outcome(s.lock, first, first_now, tx_timeout) matches Ok(granted)
            && granted.0 is Success,
        first matches State::Transaction { txid: t1, .. } && second matches State::Transaction {
            txid: t2,
            ..
        } && t1 != t2,
        live(second, after_acquire(s, first, first_now, tx_timeout).lock, second_now, tx_timeout),
        !timed_out(
            after_acquire(s, first, first_now, tx_timeout).lock.lock_created_at,
            second_now,
            tx_timeout,
        ),
    ensures
        after_acquire(s, first, first_now, tx_timeout).lock.lock_txid == Some(first->txid),
        acquire_outcome(
            after_acquire(s, first, first_now, tx_timeout).lock,
            second,
            second_now,
            tx_timeout,
        ) == Err::<(LockAcquired, Option<Lock>), Seq<char>>("database is locked"@),
        after_acquire(
            after_acquire(s, first, first_now, tx_timeout),
            second,
            second_now,
            tx_timeout,
        ) == after_acquire(s, first, first_now, tx_timeout),
{
}

/// Once the holder's lock has reached the timeout, another live transaction
/// that tries to acquire is told to roll the holder back and retry; it is not
/// granted the lock, and the lock record stays as it was.
pub proof fn lemma_timeout_handoff(
    s: Ledger,
    holder: u64,
    second: State,
    now: u128,
    tx_timeout: Option<u128>,
)
    requires
        s.lock.lock_txid == Some(holder),
        timed_out(s.lock.lock_created_at, now, tx_timeout),
        second matches State::Transaction { txid, .. } && txid != holder,
        live(second, s.lock, now, tx_timeout),
    ensures
        acquire_outcome(s.lock, second, now, tx_timeout) == Ok::<
            (LockAcquired, Option<Lock>),
            Seq<char>,
        >((LockAcquired::RollbackAndRetry { lock_txid: holder }, None)),
        after_acquire(s, second, now, tx_timeout) == s,
{
}

/// `release` by the holder clears the holder and keeps the watermark; by
/// anyone else it leaves the lock record as it was. Either way an entry of
/// the releasing txid is marked as ended, all other entries stay, and where
/// the ledger has no such entry it stays as it was.
pub proof fn lemma_release(s: Ledger, txid: u64)
    ensures
        s.lock.lock_txid == Some(txid) ==> after_release(s, txid).lock.lock_txid is None
            && after_release(s, txid).lock.gc_txid == s.lock.gc_txid,
        s.lock.lock_txid != Some(txid) ==> after_release(s, txid).lock == s.lock,
        s.entries.contains_key(txid) ==> after_release(s, txid).entries.contains_key(txid)
            && !after_release(s, txid).entries[txid].alive && after_release(s, txid).entries[txid].txid
            == s.entries[txid].txid && after_release(s, txid).entries[txid].created_at
            == s.entries[txid].created_at,
        !s.entries.contains_key(txid) ==> after_release(s, txid).entries == s.entries,
        forall|other: u64|
            other != txid ==> (#[trigger] after_release(s, txid).entries.contains_key(other))
                == s.entries.contains_key(other),
        forall|other: u64|
            other != txid && s.entries.contains_key(other) ==> (#[trigger] after_release(
                s,
                txid,
            ).entries[other]) == s.entries[other],
{
}

/// `unregister` fails with "conflict - lock does not exist" exactly where the
/// ledger holds no entry of the txid, in which case `release` changes nothing
/// in the ledger; where it holds one, the entry is marked as ended and the
/// lock record is left alone.
pub proof fn lemma_unregister(s: Ledger, txid: u64)
    ensures
        !s.entries.contains_key(txid) <==> after_unregister(s, txid) == Err::<Ledger, Seq<char>>(
            "conflict - lock does not exist"@,
        ),
        !s.entries.contains_key(txid) ==> after_release(s, txid).entries == s.entries,
        s.entries.contains_key(txid) ==> (after_unregister(s, txid) matches Ok(next) && next.lock
            == s.lock && next.entries == s.entries.insert(txid, retired(s.entries[txid]))),
{
}

/// An entry that has ended stays ended: neither `release` nor `unregister`
/// brings it back to life.
pub proof fn lemma_ended_is_terminal(s: Ledger, txid: u64, other: u64)
    requires
        s.entries.contains_key(txid),
        !s.entries[txid].alive,
    ensures
        !after_release(s, other).entries[txid].alive,
        after_unregister(s, other) matches Ok(next) ==> !next.entries[txid].alive,
{
}

/// At most one transaction holds the lock: whoever is granted `Success` is
/// the holder of the lock record afterwards.
pub proof fn lemma_success_means_holder(
    s: Ledger,
    state: State,
    now: u128,
    tx_timeout: Option<u128>,
)
    requires
        acquire_outcome(s.lock, state, now, tx_timeout) matches Ok(granted) && granted.0 is Success,
    ensures
        state matches State::Transaction { txid, autocommit, .. } && after_acquire(
            s,
            state,
            now,
            tx_timeout,
        ).lock.lock_txid == Some(txid) && acquire_outcome(s.lock, state, now, tx_timeout)->Ok_0.0
            == (LockAcquired::Success { txid, autocommit }),
        after_acquire(s, state, now, tx_timeout).lock.gc_txid == s.lock.gc_txid,
{
}

/// Whether `x` comes before `y` in the store's order of keys: byte by byte,
/// a proper prefix first.
pub open spec fn key_before(x: Seq<u8>, y: Seq<u8>) -> bool {
    exists|k: int|
        0 <= k <= x.len() && k <= y.len() && #[trigger] x.subrange(0, k) == y.subrange(0, k) && (
        if k == x.len() {
            k < y.len()
        } else {
            k < y.len() && x[k] < y[k]
        })
}

/// The ledger keys are ordered as their txids are, so that the store walks
/// the ledger from the oldest transaction to the newest.
pub proof fn lemma_keys_ordered(a: u64, b: u64)
    requires
        a < b,
    ensures
        key_before(txdata_key_bytes(a), txdata_key_bytes(b)),
{
    let x = txdata_key_bytes(a);
    let y = txdata_key_bytes(b);
    assert(x.len() == 12 && y.len() == 12);
    assert forall|i: int| 0 <= i < 4 implies x[i] == y[i] by {}
    assert forall|i: int| 0 <= i < 8 implies x[4 + i] == be_bytes(a)[i] && y[4 + i] == be_bytes(
        b,
    )[i] by {}
    assert(x[4] < y[4] || (x[4] == y[4] && (x[5] < y[5] || (x[5] == y[5] && (x[6] < y[6] || (x[6]
        == y[6] && (x[7] < y[7] || (x[7] == y[7] && (x[8] < y[8] || (x[8] == y[8] && (x[9] < y[9]
        || (x[9] == y[9] && (x[10] < y[10] || (x[10] == y[10] && x[11] < y[11])))))))))))))) by {
        assert(x[4] == (a >> 56) as u8 && x[5] == (a >> 48) as u8 && x[6] == (a >> 40) as u8
            && x[7] == (a >> 32) as u8 && x[8] == (a >> 24) as u8 && x[9] == (a >> 16) as u8
            && x[10] == (a >> 8) as u8 && x[11] == a as u8);
        assert(y[4] == (b >> 56) as u8 && y[5] == (b >> 48) as u8 && y[6] == (b >> 40) as u8
            && y[7] == (b >> 32) as u8 && y[8] == (b >> 24) as u8 && y[9] == (b >> 16) as u8
            && y[10] == (b >> 8) as u8 && y[11] == b as u8);
        assert(((a >> 56) as u8) < ((b >> 56) as u8) || ((a >> 56) as u8 == (b >> 56) as u8 && (((a
            >> 48) as u8) < ((b >> 48) as u8) || ((a >> 48) as u8 == (b >> 48) as u8 && (((a
            >> 40) as u8) < ((b >> 40) as u8) || ((a >> 40) as u8 == (b >> 40) as u8 && (((a
            >> 32) as u8) < ((b >> 32) as u8) || ((a >> 32) as u8 == (b >> 32) as u8 && (((a
            >> 24) as u8) < ((b >> 24) as u8) || ((a >> 24) as u8 == (b >> 24) as u8 && (((a
            >> 16) as u8) < ((b >> 16) as u8) || ((a >> 16) as u8 == (b >> 16) as u8 && (((a
            >> 8) as u8) < ((b >> 8) as u8) || ((a >> 8) as u8 == (b >> 8) as u8 && (a as u8) < (
        b as u8))))))))))))))) by (bit_vector)
            requires
                a < b,
        ;
    }
    let k: int = if x[4] != y[4] {
        4
    } else if x[5] != y[5] {
        5
    } else if x[6] != y[6] {
        6
    } else if x[7] != y[7] {
        7
    } else if x[8] != y[8] {
        8
    } else if x[9] != y[9] {
        9
    } else if x[10] != y[10] {
        10
    } else {
        11
    };
    assert(x.subrange(0, k) =~= y.subrange(0, k));
    assert(x[k] < y[k]);
}

} // verus!
