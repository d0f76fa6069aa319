use fjall_storage::codec::{decode_lock, decode_txdata};
use fjall_storage::lock::{
    acquire, fetch, get_txdata_key, lock_key, register, release, unregister, Lock, LockAcquired,
    TxData,
};
use fjall_storage::snapshot::Snapshot;
use fjall_storage::store::{visible_entry, ReadContext};
use fjall_storage::substrate::{load, load_all, now_millis, store, store_direct};
use fjall_storage::{FjallStorage, State, DEFAULT_TX_TIMEOUT};

fn open(name: &str) -> (fjall::TxKeyspace, fjall::TxPartition, fjall::TxPartition) {
    let nanos = std::time::SystemTime::now()
        .duration_since(std::time::UNIX_EPOCH)
        .unwrap()
        .as_nanos();
    let path = format!("/tmp/fjall_storage_{}_{}", name, nanos);
    let keyspace = fjall::Config::new(path).open_transactional().unwrap();
    let tx = keyspace.open_partition("tx", Default::default()).unwrap();
    let schema = keyspace.open_partition("schema", Default::default()).unwrap();
    (keyspace, tx, schema)
}

fn active(txid: u64, created_at: u128) -> State {
    State::Transaction {
        txid,
        created_at,
        autocommit: false,
    }
}

fn stored_lock(tx: &fjall::TxPartition) -> Option<Lock> {
    load(tx, &lock_key())
        .ok()
        .unwrap()
        .map(|bytes| decode_lock(&bytes).ok().unwrap())
}

fn stored_entry(tx: &fjall::TxPartition, txid: u64) -> Option<TxData> {
    load(tx, &get_txdata_key(txid))
        .ok()
        .unwrap()
        .map(|bytes| decode_txdata(&bytes).ok().unwrap())
}

#[test]
fn store_then_load_returns_the_value() {
    let (_keyspace, tx, _schema) = open("store_load");
    assert_eq!(load(&tx, b"k").ok(), Some(None));
    assert!(store(&tx, b"k", b"value").is_ok());
    assert_eq!(load(&tx, b"k").ok(), Some(Some(b"value".to_vec())));
    assert!(store_direct(&tx, b"j", b"other").is_ok());
    assert_eq!(load(&tx, b"j").ok(), Some(Some(b"other".to_vec())));
    assert!(store(&tx, b"k", b"again").is_ok());
    assert_eq!(load(&tx, b"k").ok(), Some(Some(b"again".to_vec())));
}

#[test]
fn load_all_follows_key_order() {
    let (_keyspace, tx, _schema) = open("load_all");
    assert_eq!(load_all(&tx).ok(), Some(Vec::new()));
    assert!(store(&tx, b"b", b"2").is_ok());
    assert!(store(&tx, b"a", b"1").is_ok());
    assert!(store(&tx, b"c", b"3").is_ok());
    assert_eq!(
        load_all(&tx).ok(),
        Some(vec![b"1".to_vec(), b"2".to_vec(), b"3".to_vec()])
    );
}

#[test]
fn clock_reads_a_present_day_time() {
    let now = now_millis().ok().unwrap();
    assert!(now > 1_600_000_000_000);
    let later = now_millis().ok().unwrap();
    assert!(later >= now);
}

#[test]
fn register_writes_an_alive_entry_and_leaves_the_lock() {
    let (_keyspace, tx, _schema) = open("register");
    let (t1, at1) = register(&tx, 1).unwrap();
    assert_eq!(t1, 1);
    assert_eq!(
        acquire(&tx, &active(1, at1), Some(DEFAULT_TX_TIMEOUT)),
        Ok(LockAcquired::Success {
            txid: 1,
            autocommit: false
        })
    );
    let before = stored_lock(&tx);
    let (t2, at2) = register(&tx, 2).unwrap();
    assert_eq!(t2, 2);
    assert_eq!(stored_lock(&tx), before);
    assert_eq!(
        stored_entry(&tx, 2),
        Some(TxData {
            txid: 2,
            alive: true,
            created_at: at2
        })
    );
    assert_eq!(fetch(&tx, 2, at2, Some(DEFAULT_TX_TIMEOUT)), Ok(Some(1)));
}

#[test]
fn fetch_on_a_fresh_store_finds_no_holder() {
    let (_keyspace, tx, _schema) = open("fetch_fresh");
    let (txid, at) = register(&tx, 5).unwrap();
    assert_eq!(fetch(&tx, txid, at, Some(DEFAULT_TX_TIMEOUT)), Ok(None));
    assert_eq!(stored_lock(&tx), None);
}

#[test]
fn fetch_fails_for_an_expired_caller() {
    let (_keyspace, tx, _schema) = open("fetch_expired");
    assert_eq!(
        fetch(&tx, 1, 0, Some(1000)).unwrap_err().message(),
        "fetch failed - expired transaction has used (timeout)"
    );
}

#[test]
fn second_writer_is_locked_out() {
    let (_keyspace, tx, _schema) = open("locked");
    let (t1, at1) = register(&tx, 1).unwrap();
    assert_eq!(
        acquire(&tx, &active(t1, at1), Some(DEFAULT_TX_TIMEOUT)),
        Ok(LockAcquired::Success {
            txid: 1,
            autocommit: false
        })
    );
    let (t2, at2) = register(&tx, 2).unwrap();
    assert_eq!(
        acquire(&tx, &active(t2, at2), Some(DEFAULT_TX_TIMEOUT))
            .unwrap_err()
            .message(),
        "database is locked"
    );
    assert_eq!(stored_lock(&tx).unwrap().lock_txid, Some(1));
}

#[test]
fn acquire_again_keeps_the_time_of_acquisition() {
    let (_keyspace, tx, _schema) = open("idempotent");
    let (t1, at1) = register(&tx, 1).unwrap();
    let state = State::Transaction {
        txid: t1,
        created_at: at1,
        autocommit: true,
    };
    let expected = Ok(LockAcquired::Success {
        txid: 1,
        autocommit: true,
    });
    assert_eq!(acquire(&tx, &state, Some(DEFAULT_TX_TIMEOUT)), expected);
    let first = stored_lock(&tx).unwrap();
    assert_eq!(first.lock_created_at, at1);
    assert_eq!(acquire(&tx, &state, Some(DEFAULT_TX_TIMEOUT)), expected);
    assert_eq!(stored_lock(&tx), Some(first));
}

#[test]
fn stale_holder_is_handed_to_rollback() {
    let (_keyspace, tx, _schema) = open("handoff");
    let now = now_millis().ok().unwrap();
    let t0 = now - 1500;
    assert!(store(
        &tx,
        &lock_key(),
        &fjall_storage::codec::encode_lock(&Lock {
            lock_txid: Some(1),
            lock_created_at: t0,
            gc_txid: None
        })
        .ok()
        .unwrap()
    )
    .is_ok());
    assert_eq!(
        acquire(&tx, &active(2, now), Some(1000)),
        Ok(LockAcquired::RollbackAndRetry { lock_txid: 1 })
    );
    assert_eq!(stored_lock(&tx).unwrap().lock_txid, Some(1));
    assert_eq!(stored_lock(&tx).unwrap().lock_created_at, t0);
}

#[test]
fn acquire_from_idle_fails_without_touching_the_store() {
    let (_keyspace, tx, _schema) = open("idle");
    assert_eq!(
        acquire(&tx, &State::Idle, Some(1000)).unwrap_err().message(),
        "conflict - cannot acquire lock from idle state"
    );
    assert_eq!(stored_lock(&tx), None);
}

#[test]
fn release_by_holder_clears_lock_and_retires_entry() {
    let (_keyspace, tx, _schema) = open("release");
    let (t1, at1) = register(&tx, 1).unwrap();
    assert!(acquire(&tx, &active(t1, at1), None).is_ok());
    assert_eq!(release(&tx, 1), Ok(()));
    assert_eq!(stored_lock(&tx), Some(Lock::default()));
    assert_eq!(
        stored_entry(&tx, 1),
        Some(TxData {
            txid: 1,
            alive: false,
            created_at: at1
        })
    );
    let (t2, at2) = register(&tx, 2).unwrap();
    assert_eq!(
        acquire(&tx, &active(t2, at2), None),
        Ok(LockAcquired::Success {
            txid: 2,
            autocommit: false
        })
    );
}

#[test]
fn release_by_another_leaves_the_lock() {
    let (_keyspace, tx, _schema) = open("release_other");
    let (t1, at1) = register(&tx, 1).unwrap();
    assert!(acquire(&tx, &active(t1, at1), None).is_ok());
    let before = stored_lock(&tx);
    let (_, at2) = register(&tx, 2).unwrap();
    assert_eq!(release(&tx, 2), Ok(()));
    assert_eq!(stored_lock(&tx), before);
    assert_eq!(
        stored_entry(&tx, 2),
        Some(TxData {
            txid: 2,
            alive: false,
            created_at: at2
        })
    );
    assert_eq!(stored_entry(&tx, 1).unwrap().alive, true);
}

#[test]
fn release_without_entry_is_a_quiet_success() {
    let (_keyspace, tx, _schema) = open("release_missing");
    assert_eq!(release(&tx, 42), Ok(()));
    assert_eq!(stored_entry(&tx, 42), None);
    assert_eq!(stored_lock(&tx), None);
}

#[test]
fn unregister_without_entry_fails() {
    let (_keyspace, tx, _schema) = open("unregister_missing");
    assert_eq!(
        unregister(&tx, 99).unwrap_err().message(),
        "conflict - lock does not exist"
    );
}

#[test]
fn unregister_retires_the_entry() {
    let (_keyspace, tx, _schema) = open("unregister");
    let (_, at) = register(&tx, 3).unwrap();
    assert_eq!(unregister(&tx, 3), Ok(()));
    assert_eq!(
        stored_entry(&tx, 3),
        Some(TxData {
            txid: 3,
            alive: false,
            created_at: at
        })
    );
}

#[test]
fn new_handle_is_idle_with_default_timeout() {
    let (_keyspace, tx, schema) = open("handle");
    let mut storage = FjallStorage::new(tx, schema);
    assert_eq!(storage.state, State::Idle);
    assert_eq!(storage.tx_timeout, Some(3_600_000));
    assert_eq!(storage.id_offset, 0);
    storage.set_transaction_timeout(None);
    assert_eq!(storage.tx_timeout, None);
    storage.set_transaction_timeout(Some(5));
    assert_eq!(storage.tx_timeout, Some(5));
    assert_eq!(storage.state, State::Idle);
}

#[test]
fn row_reads_from_idle_fail_with_conflict() {
    let (keyspace, tx, schema) = open("row_idle");
    let table = keyspace.open_partition("users", Default::default()).unwrap();
    let storage = FjallStorage::new(tx, schema);
    assert_eq!(
        storage.fetch_data(&table, b"key").unwrap_err().message(),
        "conflict - fetch_data failed, lock does not exist"
    );
    assert_eq!(
        storage.scan_data().unwrap_err().message(),
        "conflict - scan_data failed, lock does not exist"
    );
    assert_eq!(stored_entry(&storage.tx_partition, 0), None);
}

#[test]
fn row_read_in_a_transaction_returns_stored_bytes() {
    let (keyspace, tx, schema) = open("row_active");
    let table = keyspace.open_partition("users", Default::default()).unwrap();
    let mut storage = FjallStorage::new(tx, schema);
    let (txid, at) = register(&storage.tx_partition, 7).unwrap();
    storage.state = active(txid, at);
    assert!(store(&table, b"key", b"envelope").is_ok());
    let expected = ReadContext {
        txid: 7,
        lock_txid: None,
        ephemeral: false,
    };
    assert_eq!(
        storage.fetch_data(&table, b"key"),
        Ok((expected, Some(b"envelope".to_vec())))
    );
    assert_eq!(storage.fetch_data(&table, b"nokey"), Ok((expected, None)));
    assert_eq!(storage.scan_data(), Ok(expected));
    assert_eq!(
        visible_entry(b"key".to_vec(), Snapshot::new(3, 1u8), &expected),
        Some((b"key".to_vec(), 1u8))
    );
}

#[test]
fn schema_read_from_idle_registers_and_cleans_up() {
    let (_keyspace, tx, schema) = open("schema_idle");
    let mut storage = FjallStorage::new(tx, schema);
    storage.id_offset = 11;
    assert!(store(&storage.schema_partition, b"users", b"s1").is_ok());
    let (ctx, found) = storage.fetch_schema("users").unwrap();
    assert_eq!(
        ctx,
        ReadContext {
            txid: 11,
            lock_txid: None,
            ephemeral: true
        }
    );
    assert_eq!(found, Some(b"s1".to_vec()));
    assert_eq!(stored_entry(&storage.tx_partition, 11).unwrap().alive, false);
    let (_, missing) = storage.fetch_schema("nobody").unwrap();
    assert_eq!(missing, None);
}

#[test]
fn all_schemas_read_from_idle_leaves_the_registration() {
    let (_keyspace, tx, schema) = open("schemas_idle");
    let mut storage = FjallStorage::new(tx, schema);
    storage.id_offset = 12;
    assert!(store(&storage.schema_partition, b"b", b"s2").is_ok());
    assert!(store(&storage.schema_partition, b"a", b"s1").is_ok());
    let (ctx, values) = storage.fetch_all_schemas().unwrap();
    assert_eq!(ctx.txid, 12);
    assert!(ctx.ephemeral);
    assert_eq!(values, vec![b"s1".to_vec(), b"s2".to_vec()]);
    assert_eq!(stored_entry(&storage.tx_partition, 12).unwrap().alive, true);
}

#[test]
fn schema_read_in_a_transaction_sees_the_writer() {
    let (_keyspace, tx, schema) = open("schema_active");
    let mut storage = FjallStorage::new(tx, schema);
    let (t1, at1) = register(&storage.tx_partition, 1).unwrap();
    assert!(acquire(&storage.tx_partition, &active(t1, at1), storage.tx_timeout).is_ok());
    let (t2, at2) = register(&storage.tx_partition, 2).unwrap();
    storage.state = active(t2, at2);
    let (ctx, found) = storage.fetch_schema("users").unwrap();
    assert_eq!(
        ctx,
        ReadContext {
            txid: 2,
            lock_txid: Some(1),
            ephemeral: false
        }
    );
    assert_eq!(found, None);
    assert_eq!(stored_entry(&storage.tx_partition, 2).unwrap().alive, true);
}

#[test]
fn load_takes_a_key_of_the_longest_length() {
    let (_keyspace, tx, _schema) = open("longest_key");
    let key = vec![7u8; 65_535];
    assert_eq!(load(&tx, &key).ok(), Some(None));
    assert!(store(&tx, &key, b"v").is_ok());
    assert_eq!(load(&tx, &key).ok(), Some(Some(b"v".to_vec())));
    assert_eq!(load(&tx, b"").ok(), Some(None));
}

#[test]
fn row_read_of_an_expired_transaction_returns_the_fetch_conflict() {
    let (keyspace, tx, schema) = open("row_expired");
    let table = keyspace.open_partition("users", Default::default()).unwrap();
    let mut storage = FjallStorage::new(tx, schema);
    storage.set_transaction_timeout(Some(1000));
    storage.state = active(4, 0);
    assert_eq!(
        storage.fetch_data(&table, b"key").unwrap_err().message(),
        "fetch failed - expired transaction has used (timeout)"
    );
    assert_eq!(
        storage.scan_data().unwrap_err().message(),
        "fetch failed - expired transaction has used (timeout)"
    );
}

#[test]
fn row_read_below_the_watermark_returns_the_fetch_conflict() {
    let (keyspace, tx, schema) = open("row_collected");
    let table = keyspace.open_partition("users", Default::default()).unwrap();
    let record = fjall_storage::codec::encode_lock(&Lock {
        lock_txid: None,
        lock_created_at: 0,
        gc_txid: Some(4),
    })
    .ok()
    .unwrap();
    assert!(store(&tx, &lock_key(), &record).is_ok());
    let mut storage = FjallStorage::new(tx, schema);
    let now = now_millis().ok().unwrap();
    storage.state = active(4, now);
    assert_eq!(
        storage.fetch_data(&table, b"key").unwrap_err().message(),
        "fetch failed - expired transaction has used (txid)"
    );
    assert_eq!(
        storage.scan_data().unwrap_err().message(),
        "fetch failed - expired transaction has used (txid)"
    );
    storage.state = active(5, now);
    assert!(storage.fetch_data(&table, b"key").is_ok());
}

#[test]
fn acquire_of_an_expired_transaction_returns_its_conflict() {
    let (_keyspace, tx, _schema) = open("acquire_expired");
    assert_eq!(
        acquire(&tx, &active(4, 0), Some(1000)).unwrap_err().message(),
        "acquire failed - expired transaction has used (timeout)"
    );
    assert_eq!(stored_lock(&tx), None);
}
