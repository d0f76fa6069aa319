//! Binary form of the two persisted records. Integers are little-endian and
//! of fixed width, a flag is one byte, and an optional value is one tag byte
//! followed, where the tag is 1, by the value.

use vstd::prelude::*;
use crate::error::StorageError;
use crate::lock::{Lock, TxData};

verus! {

/// The `n` low bytes of `v`, least significant first.
pub open spec fn le_bytes(v: nat, n: nat) -> Seq<u8>
    decreases n,
{
    if n == 0 {
        Seq::empty()
    } else {
        seq![(v % 256) as u8] + le_bytes(v / 256, (n - 1) as nat)
    }
}

/// An optional txid: tag 0 alone, or tag 1 and the eight bytes of the txid.
pub open spec fn option_bytes(v: Option<u64>) -> Seq<u8> {
    match v {
        None => seq![0u8],
        Some(x) => seq![1u8] + le_bytes(x as nat, 8),
    }
}

/// The lock record: holder, time of acquisition, collection watermark.
pub open spec fn lock_bytes(lock: Lock) -> Seq<u8> {
    option_bytes(lock.lock_txid) + le_bytes(lock.lock_created_at as nat, 16) + option_bytes(
        lock.gc_txid,
    )
}

/// A ledger entry: txid, liveness flag, time of creation.
pub open spec fn txdata_bytes(tx: TxData) -> Seq<u8> {
    le_bytes(tx.txid as nat, 8) + seq![if tx.alive { 1u8 } else { 0u8 }] + le_bytes(
        tx.created_at as nat,
        16,
    )
}

/// The number that little-endian `bytes` stand for.
pub open spec fn le_value(bytes: Seq<u8>) -> nat
    decreases bytes.len(),
{
    if bytes.len() == 0 {
        0
    } else {
        bytes[0] as nat + 256 * le_value(bytes.skip(1))
    }
}

/// Reads an optional txid from the front of `bytes`: the value and how many
/// bytes it took, or `None` where the tag is neither 0 nor 1 or bytes are
/// missing.
pub open spec fn option_decoding(bytes: Seq<u8>) -> Option<(Option<u64>, int)> {
    if bytes.len() >= 1 && bytes[0] == 0 {
        Some((None, 1))
    } else if bytes.len() >= 9 && bytes[0] == 1 {
        Some((Some(le_value(bytes.subrange(1, 9)) as u64), 9))
    } else {
        None
    }
}

/// Reads a lock record (holder, time of acquisition, watermark) from the
/// front of `bytes`, or `None` where a tag is neither 0 nor 1 or bytes are
/// missing. Bytes behind the record are ignored.
pub open spec fn lock_decoding(bytes: Seq<u8>) -> Option<(Option<u64>, u128, Option<u64>)> {
    match option_decoding(bytes) {
        Some((holder, n)) => if bytes.len() >= n + 16 {
            match option_decoding(bytes.skip(n + 16)) {
                Some((mark, _)) => Some(
                    (holder, le_value(bytes.subrange(n, n + 16)) as u128, mark),
                ),
                None => None,
            }
        } else {
            None
        },
        None => None,
    }
}

/// Reads a ledger entry (txid, flag, time of creation) from the front of
/// `bytes`, or `None` where the flag is neither 0 nor 1 or bytes are missing.
/// Bytes behind the entry are ignored.
pub open spec fn txdata_decoding(bytes: Seq<u8>) -> Option<(u64, bool, u128)> {
    if bytes.len() >= 25 && bytes[8] <= 1 {
        Some(
            (
                le_value(bytes.subrange(0, 8)) as u64,
                bytes[8] == 1,
                le_value(bytes.subrange(9, 25)) as u128,
            ),
        )
    } else {
        None
    }
}

/// 256 to the power of `n`.
pub open spec fn pow256(n: nat) -> nat
    decreases n,
{
    if n == 0 {
        1
    } else {
        256 * pow256((n - 1) as nat)
    }
}

/// Reading back the `n` bytes written for a number that fits in them gives
/// the number.
pub proof fn lemma_le_round_trip(v: nat, n: nat)
    requires
        v < pow256(n),
    ensures
        le_value(le_bytes(v, n)) == v,
    decreases n,
{
    if n > 0 {
        let rest = le_bytes(v / 256, (n - 1) as nat);
        assert(le_bytes(v, n).skip(1) =~= rest);
        assert(v / 256 < pow256((n - 1) as nat)) by (nonlinear_arith)
            requires
                v < 256 * pow256((n - 1) as nat),
        ;
        lemma_le_round_trip(v / 256, (n - 1) as nat);
        assert(le_bytes(v, n)[0] == (v % 256) as u8);
        assert(v % 256 + 256 * (v / 256) == v) by (nonlinear_arith);
    }
}

/// Eight bytes hold every `u64`, sixteen every `u128`.
pub proof fn lemma_widths()
    ensures
        pow256(8) == 0x1_0000_0000_0000_0000,
        pow256(16) == 0x1_0000_0000_0000_0000_0000_0000_0000_0000,
{
    reveal_with_fuel(pow256, 17);
}

/// Reading back an optional txid that is followed by any bytes gives it, with
/// the number of bytes it was written in.
pub proof fn lemma_option_round_trip(v: Option<u64>, rest: Seq<u8>)
    ensures
        option_decoding(option_bytes(v) + rest) == Some((v, option_bytes(v).len() as int)),
        option_bytes(v).len() == (if v is Some { 9int } else { 1 }),
{
    let bytes = option_bytes(v) + rest;
    match v {
        None => {
            assert(bytes[0] == 0);
        },
        Some(x) => {
            lemma_le_bytes_len(x as nat, 8);
            lemma_widths();
            lemma_le_round_trip(x as nat, 8);
            assert(bytes[0] == 1);
            assert(bytes.subrange(1, 9) =~= le_bytes(x as nat, 8));
        },
    }
}

/// A lock record that was written is read back as it was, whatever bytes
/// follow it.
pub proof fn lemma_lock_round_trip(lock: Lock, rest: Seq<u8>)
    ensures
        lock_decoding(lock_bytes(lock) + rest) == Some(
            (lock.lock_txid, lock.lock_created_at, lock.gc_txid),
        ),
{
    let holder = option_bytes(lock.lock_txid);
    let at = le_bytes(lock.lock_created_at as nat, 16);
    let mark = option_bytes(lock.gc_txid);
    let bytes = lock_bytes(lock) + rest;
    lemma_le_bytes_len(lock.lock_created_at as nat, 16);
    lemma_widths();
    lemma_le_round_trip(lock.lock_created_at as nat, 16);
    lemma_option_round_trip(lock.lock_txid, at + mark + rest);
    lemma_option_round_trip(lock.gc_txid, rest);
    let n = holder.len() as int;
    assert(bytes =~= holder + (at + mark + rest));
    assert(bytes.subrange(n, n + 16) =~= at);
    assert(bytes.skip(n + 16) =~= mark + rest);
}

/// A ledger entry that was written is read back as it was, whatever bytes
/// follow it.
pub proof fn lemma_txdata_round_trip(tx: TxData, rest: Seq<u8>)
    ensures
        txdata_decoding(txdata_bytes(tx) + rest) == Some((tx.txid, tx.alive, tx.created_at)),
{
    let id = le_bytes(tx.txid as nat, 8);
    let at = le_bytes(tx.created_at as nat, 16);
    let bytes = txdata_bytes(tx) + rest;
    lemma_le_bytes_len(tx.txid as nat, 8);
    lemma_le_bytes_len(tx.created_at as nat, 16);
    lemma_widths();
    lemma_le_round_trip(tx.txid as nat, 8);
    lemma_le_round_trip(tx.created_at as nat, 16);
    assert(bytes.subrange(0, 8) =~= id);
    assert(bytes.subrange(9, 25) =~= at);
    assert(bytes[8] == (if tx.alive { 1u8 } else { 0u8 }));
}

/// `le_bytes` gives as many bytes as it is asked for.
pub proof fn lemma_le_bytes_len(v: nat, n: nat)
    ensures
        le_bytes(v, n).len() == n,
    decreases n,
{
    if n > 0 {
        lemma_le_bytes_len(v / 256, (n - 1) as nat);
    }
}

/// A lock record takes 18, 26 or 34 bytes, by how many of its two optional
/// fields are present.
pub proof fn lemma_lock_bytes_len(lock: Lock)
    ensures
        lock_bytes(lock).len() == 18 + (if lock.lock_txid is Some { 8int } else { 0 }) + (
        if lock.gc_txid is Some { 8int } else { 0 }),
{
    lemma_le_bytes_len(lock.lock_created_at as nat, 16);
    if let Some(x) = lock.lock_txid {
        lemma_le_bytes_len(x as nat, 8);
    }
    if let Some(x) = lock.gc_txid {
        lemma_le_bytes_len(x as nat, 8);
    }
}

/// A ledger entry takes 25 bytes.
pub proof fn lemma_txdata_bytes_len(tx: TxData)
    ensures
        txdata_bytes(tx).len() == 25,
{
    lemma_le_bytes_len(tx.txid as nat, 8);
    lemma_le_bytes_len(tx.created_at as nat, 16);
}

/// `bincode::serialize` on the lock record's three fields in their order.
/// With its fixed-width little-endian configuration the serializer writes
/// each field as `lock_bytes` lays it out. It writes into a vector and under
/// no size limit, and integers, flags and options have no case that it
/// refuses, so it does not fail.
#[verifier::external_body]
fn serialize_lock(lock: &Lock) -> (r: Result<Vec<u8>, bincode::Error>)
    ensures
        r is Ok,
        r matches Ok(bytes) ==> bytes@ == lock_bytes(*lock),
{
    bincode::serialize(&(lock.lock_txid, lock.lock_created_at, lock.gc_txid))
}

/// `bincode::deserialize` for the lock record's three fields in their order.
/// With its fixed-width little-endian configuration, which lets bytes trail,
/// the serializer reads each field as `lock_decoding` does and fails where
/// that finds a bad tag or too few bytes.
#[verifier::external_body]
fn deserialize_lock(bytes: &[u8]) -> (r: Result<Lock, bincode::Error>)
    ensures
        match r {
            Ok(lock) => lock_decoding(bytes@) == Some(
                (lock.lock_txid, lock.lock_created_at, lock.gc_txid),
            ),
            Err(_) => lock_decoding(bytes@) is None,
        },
{
    bincode::deserialize::<(Option<u64>, u128, Option<u64>)>(bytes).map(
        |(lock_txid, lock_created_at, gc_txid)| Lock { lock_txid, lock_created_at, gc_txid },
    )
}

/// `bincode::serialize` on a ledger entry's three fields in their order,
/// written as `txdata_bytes` lays them out. It writes into a vector and under
/// no size limit, and integers and flags have no case that it refuses, so it
/// does not fail.
#[verifier::external_body]
fn serialize_txdata(tx: &TxData) -> (r: Result<Vec<u8>, bincode::Error>)
    ensures
        r is Ok,
        r matches Ok(bytes) ==> bytes@ == txdata_bytes(*tx),
{
    bincode::serialize(&(tx.txid, tx.alive, tx.created_at))
}

/// `bincode::deserialize` for a ledger entry's three fields in their order,
/// read as `txdata_decoding` does; it fails where that finds a bad flag or
/// too few bytes.
#[verifier::external_body]
fn deserialize_txdata(bytes: &[u8]) -> (r: Result<TxData, bincode::Error>)
    ensures
        match r {
            Ok(tx) => txdata_decoding(bytes@) == Some((tx.txid, tx.alive, tx.created_at)),
            Err(_) => txdata_decoding(bytes@) is None,
        },
{
    bincode::deserialize::<(u64, bool, u128)>(bytes).map(
        |(txid, alive, created_at)| TxData { txid, alive, created_at },
    )
}

/// The bytes under which a lock record is stored: encoding does not fail,
/// the bytes are at most 34, and they read back as the record.
pub fn encode_lock(lock: &Lock) -> (r: Result<Vec<u8>, StorageError>)
    ensures
        r matches Ok(bytes) && bytes@ == lock_bytes(*lock) && bytes@.len() <= 34 && lock_decoding(
            bytes@,
        ) == Some((lock.lock_txid, lock.lock_created_at, lock.gc_txid)),
{
    proof {
        lemma_lock_bytes_len(*lock);
        lemma_lock_round_trip(*lock, Seq::empty());
        assert(lock_bytes(*lock) + Seq::<u8>::empty() =~= lock_bytes(*lock));
    }
    match serialize_lock(lock) {
        Ok(bytes) => Ok(bytes),
        Err(e) => Err(StorageError::Bincode(e)),
    }
}

/// Reads a lock record back from stored bytes.
pub fn decode_lock(bytes: &[u8]) -> (r: Result<Lock, StorageError>)
    ensures
        match r {
            Ok(lock) => lock_decoding(bytes@) == Some(
                (lock.lock_txid, lock.lock_created_at, lock.gc_txid),
            ),
            Err(e) => lock_decoding(bytes@) is None && e is Bincode,
        },
{
    match deserialize_lock(bytes) {
        Ok(lock) => Ok(lock),
        Err(e) => Err(StorageError::Bincode(e)),
    }
}

/// The bytes under which a ledger entry is stored: encoding does not fail,
/// the bytes are 25, and they read back as the entry.
pub fn encode_txdata(tx: &TxData) -> (r: Result<Vec<u8>, StorageError>)
    ensures
        r matches Ok(bytes) && bytes@ == txdata_bytes(*tx) && bytes@.len() == 25
            && txdata_decoding(bytes@) == Some((tx.txid, tx.alive, tx.created_at)),
{
    proof {
        lemma_txdata_bytes_len(*tx);
        lemma_txdata_round_trip(*tx, Seq::empty());
        assert(txdata_bytes(*tx) + Seq::<u8>::empty() =~= txdata_bytes(*tx));
    }
    match serialize_txdata(tx) {
        Ok(bytes) => Ok(bytes),
        Err(e) => Err(StorageError::Bincode(e)),
    }
}

/// Reads a ledger entry back from stored bytes.
pub fn decode_txdata(bytes: &[u8]) -> (r: Result<TxData, StorageError>)
    ensures
        match r {
            Ok(tx) => txdata_decoding(bytes@) == Some((tx.txid, tx.alive, tx.created_at)),
            Err(e) => txdata_decoding(bytes@) is None && e is Bincode,
        },
{
    match deserialize_txdata(bytes) {
        Ok(tx) => Ok(tx),
        Err(e) => Err(StorageError::Bincode(e)),
    }
}

} // verus!
