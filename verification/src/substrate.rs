//! The boundary to the key-value store and to the wall clock.

use vstd::prelude::*;
use crate::error::StorageError;

verus! {

/// Handle of one partition of the transactional key-value store.
#[verifier::external_type_specification]
#[verifier::external_body]
pub struct ExTxPartition(fjall::TransactionalPartitionHandle);

/// A point of the wall clock.
#[verifier::external_type_specification]
#[verifier::external_body]
pub struct ExSystemTime(std::time::SystemTime);

/// Longest key the store takes.
pub const MAX_KEY_LEN: usize = 65535;

/// Longest value the store takes.
pub const MAX_VALUE_LEN: usize = 4294967295;

/// `TransactionalPartitionHandle::get`: reads the value stored under `key`.
/// The store refuses a key longer than 65535 bytes by panicking, so it is
/// left out. What is stored is decided outside this process, so nothing is
/// claimed of the result.
#[verifier::external_body]
fn partition_get(partition: &fjall::TransactionalPartitionHandle, key: &[u8]) -> (r: Result<
    Option<Vec<u8>>,
    fjall::Error,
>)
    requires
        key@.len() <= MAX_KEY_LEN,
{
    partition.get(key).map(|found| found.map(|value| value.to_vec()))
}

/// `TransactionalPartitionHandle::insert`: writes `value` under `key` in a
/// transaction of its own. The store refuses an empty key, a key longer than
/// 65535 bytes and a value longer than 2^32 - 1 bytes by panicking, so they
/// are left out.
#[verifier::external_body]
fn partition_insert(partition: &fjall::TransactionalPartitionHandle, key: &[u8], value: &[u8]) -> (r:
    Result<(), fjall::Error>)
    requires
        0 < key@.len() <= MAX_KEY_LEN,
        value@.len() <= MAX_VALUE_LEN,
{
    partition.insert(key, value)
}

/// `PartitionHandle::insert` on the handle that
/// `TransactionalPartitionHandle::inner` gives: writes `value` under `key`
/// outside any transaction. Same limits as the transactional insert.
#[verifier::external_body]
fn partition_insert_direct(
    partition: &fjall::TransactionalPartitionHandle,
    key: &[u8],
    value: &[u8],
) -> (r: Result<(), fjall::Error>)
    requires
        0 < key@.len() <= MAX_KEY_LEN,
        value@.len() <= MAX_VALUE_LEN,
{
    partition.inner().insert(key, value)
}

/// `PartitionHandle::iter` on the handle that
/// `TransactionalPartitionHandle::inner` gives: every stored value, in the
/// order of the keys. What is stored is decided outside this process, so
/// nothing is claimed of the result.
#[verifier::external_body]
fn partition_values(partition: &fjall::TransactionalPartitionHandle) -> (r: Result<
    Vec<Vec<u8>>,
    fjall::Error,
>) {
    partition.inner().iter().map(|item| item.map(|(_, value)| value.to_vec())).collect()
}

/// `SystemTime::now`: the wall clock's present reading.
#[verifier::external_body]
fn clock_now() -> (t: std::time::SystemTime) {
    std::time::SystemTime::now()
}

/// `SystemTime::duration_since` against the Unix epoch; fails where the clock
/// reads before the epoch.
#[verifier::external_body]
fn since_epoch(t: &std::time::SystemTime) -> (r: Result<
    std::time::Duration,
    std::time::SystemTimeError,
>) {
    t.duration_since(std::time::UNIX_EPOCH)
}

/// `Duration::as_millis`: the whole milliseconds of a duration.
#[verifier::external_body]
fn whole_millis(d: &std::time::Duration) -> (ms: u128) {
    d.as_millis()
}

/// Reads the value stored under `key`.
pub fn load(partition: &fjall::TransactionalPartitionHandle, key: &[u8]) -> (r: Result<
    Option<Vec<u8>>,
    StorageError,
>)
    requires
        key@.len() <= MAX_KEY_LEN,
    ensures
        r matches Err(e) ==> e is Fjall,
{
    match partition_get(partition, key) {
        Ok(found) => Ok(found),
        Err(e) => Err(StorageError::Fjall(e)),
    }
}

/// Reads every stored value, in the order of the keys.
pub fn load_all(partition: &fjall::TransactionalPartitionHandle) -> (r: Result<
    Vec<Vec<u8>>,
    StorageError,
>)
    ensures
        r matches Err(e) ==> e is Fjall,
{
    match partition_values(partition) {
        Ok(values) => Ok(values),
        Err(e) => Err(StorageError::Fjall(e)),
    }
}

/// Writes `value` under `key` in a transaction of its own.
pub fn store(partition: &fjall::TransactionalPartitionHandle, key: &[u8], value: &[u8]) -> (r:
    Result<(), StorageError>)
    requires
        0 < key@.len() <= MAX_KEY_LEN,
        value@.len() <= MAX_VALUE_LEN,
    ensures
        r matches Err(e) ==> e is Fjall,
{
    match partition_insert(partition, key, value) {
        Ok(()) => Ok(()),
        Err(e) => Err(StorageError::Fjall(e)),
    }
}

/// Writes `value` under `key` outside any transaction.
pub fn store_direct(partition: &fjall::TransactionalPartitionHandle, key: &[u8], value: &[u8]) -> (r:
    Result<(), StorageError>)
    requires
        0 < key@.len() <= MAX_KEY_LEN,
        value@.len() <= MAX_VALUE_LEN,
    ensures
        r matches Err(e) ==> e is Fjall,
{
    match partition_insert_direct(partition, key, value) {
        Ok(()) => Ok(()),
        Err(e) => Err(StorageError::Fjall(e)),
    }
}

/// Milliseconds since the Unix epoch by the wall clock.
pub fn now_millis() -> (r: Result<u128, StorageError>)
    ensures
        r matches Err(e) ==> e is SystemTime,
{
    let t = clock_now();
    match since_epoch(&t) {
        Ok(d) => Ok(whole_millis(&d)),
        Err(e) => Err(StorageError::SystemTime(e)),
    }
}

} // verus!
