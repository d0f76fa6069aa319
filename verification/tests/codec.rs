use fjall_storage::codec::{decode_lock, decode_txdata, encode_lock, encode_txdata};
use fjall_storage::error::{err_into, StorageError};
use fjall_storage::lock::{entry_from, lock_from, Lock, TxData};

#[test]
fn lock_record_bytes_are_fixed_width_little_endian() {
    let lock = Lock {
        lock_txid: Some(0x0102),
        lock_created_at: 0x0a0b,
        gc_txid: None,
    };
    let mut expected = vec![1u8, 0x02, 0x01, 0, 0, 0, 0, 0, 0];
    expected.extend_from_slice(&[0x0b, 0x0a, 0, 0, 0, 0, 0, 0, 0, 0, 0, 0, 0, 0, 0, 0]);
    expected.push(0);
    assert_eq!(encode_lock(&lock).ok(), Some(expected));
}

#[test]
fn vacant_lock_record_takes_eighteen_bytes() {
    assert_eq!(encode_lock(&Lock::default()).ok(), Some(vec![0u8; 18]));
}

#[test]
fn full_lock_record_takes_thirty_four_bytes() {
    let lock = Lock {
        lock_txid: Some(u64::MAX),
        lock_created_at: u128::MAX,
        gc_txid: Some(1),
    };
    let bytes = encode_lock(&lock).ok().unwrap();
    assert_eq!(bytes.len(), 34);
    assert_eq!(bytes[0], 1);
    assert_eq!(&bytes[1..25], &[0xffu8; 24][..]);
    assert_eq!(&bytes[25..], &[1u8, 1, 0, 0, 0, 0, 0, 0, 0][..]);
}

#[test]
fn lock_record_bytes_are_those_of_the_serializer_for_the_struct_fields() {
    let lock = Lock {
        lock_txid: Some(77),
        lock_created_at: 1_700_000_000_000,
        gc_txid: Some(12),
    };
    let direct =
        bincode::serialize(&(lock.lock_txid, lock.lock_created_at, lock.gc_txid)).unwrap();
    assert_eq!(encode_lock(&lock).ok(), Some(direct));
}

#[test]
fn txdata_bytes_are_fixed_width_little_endian() {
    let tx = TxData {
        txid: 0x0102,
        alive: true,
        created_at: 3,
    };
    let mut expected = vec![0x02u8, 0x01, 0, 0, 0, 0, 0, 0, 1];
    expected.extend_from_slice(&[3, 0, 0, 0, 0, 0, 0, 0, 0, 0, 0, 0, 0, 0, 0, 0]);
    assert_eq!(encode_txdata(&tx).ok(), Some(expected));
    let dead = TxData { alive: false, ..tx };
    assert_eq!(encode_txdata(&dead).ok().unwrap()[8], 0);
}

#[test]
fn lock_record_round_trips() {
    for lock in [
        Lock::default(),
        Lock {
            lock_txid: Some(5),
            lock_created_at: 99,
            gc_txid: Some(4),
        },
        Lock {
            lock_txid: None,
            lock_created_at: u128::MAX,
            gc_txid: Some(u64::MAX),
        },
    ] {
        let bytes = encode_lock(&lock).ok().unwrap();
        assert_eq!(decode_lock(&bytes).ok(), Some(lock));
    }
}

#[test]
fn txdata_round_trips() {
    for tx in [
        TxData {
            txid: 0,
            alive: false,
            created_at: 0,
        },
        TxData {
            txid: u64::MAX,
            alive: true,
            created_at: 1_700_000_000_123,
        },
    ] {
        let bytes = encode_txdata(&tx).ok().unwrap();
        assert_eq!(bytes.len(), 25);
        assert_eq!(decode_txdata(&bytes).ok(), Some(tx));
    }
}

#[test]
fn truncated_records_are_rejected() {
    assert!(matches!(decode_lock(&[1u8, 2, 3]), Err(StorageError::Bincode(_))));
    assert!(matches!(decode_txdata(&[0u8; 24]), Err(StorageError::Bincode(_))));
    assert!(matches!(decode_lock(&[]), Err(StorageError::Bincode(_))));
}

#[test]
fn bad_tags_are_rejected() {
    let mut bytes = vec![0u8; 18];
    bytes[0] = 2;
    assert!(matches!(decode_lock(&bytes), Err(StorageError::Bincode(_))));
    let mut bytes = vec![0u8; 25];
    bytes[8] = 7;
    assert!(matches!(decode_txdata(&bytes), Err(StorageError::Bincode(_))));
}

#[test]
fn trailing_bytes_are_ignored() {
    let mut bytes = vec![0u8; 18];
    bytes.extend_from_slice(&[9, 9, 9]);
    assert_eq!(decode_lock(&bytes).ok(), Some(Lock::default()));
}

#[test]
fn absent_lock_record_is_vacant() {
    assert_eq!(lock_from(None).ok(), Some(Lock::default()));
    assert_eq!(
        lock_from(Some(vec![0u8; 18])).ok(),
        Some(Lock {
            lock_txid: None,
            lock_created_at: 0,
            gc_txid: None
        })
    );
    assert!(lock_from(Some(vec![5u8])).is_err());
}

#[test]
fn absent_entry_is_none() {
    assert_eq!(entry_from(None).ok(), Some(None));
    let tx = TxData {
        txid: 3,
        alive: true,
        created_at: 8,
    };
    let bytes = encode_txdata(&tx).ok().unwrap();
    assert_eq!(entry_from(Some(bytes)).ok(), Some(Some(tx)));
    assert!(entry_from(Some(vec![1u8, 2])).is_err());
}

#[test]
fn serializer_failure_keeps_its_text() {
    let direct = bincode::deserialize::<(Option<u64>, u128, Option<u64>)>(&[2u8])
        .unwrap_err()
        .to_string();
    assert!(!direct.is_empty());
    let flattened = err_into(decode_lock(&[2u8]).unwrap_err()).message();
    assert_eq!(flattened, direct);
}
