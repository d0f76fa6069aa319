//! Transaction and lock manager with multi-version visibility for a storage
//! backend that keeps its records in a transactional, ordered key-value store.

use vstd::prelude::*;

pub mod error;
pub mod substrate;
pub mod codec;
pub mod lock;
pub mod snapshot;
pub mod store;
pub mod ledger;

verus! {

/// Default transaction timeout in milliseconds: one hour.
pub const DEFAULT_TX_TIMEOUT: u128 = 3600000;

/// Transaction state of one connection handle.
#[derive(Debug, Clone, Copy, PartialEq, Eq)]
pub enum State {
    Idle,
    Transaction { txid: u64, created_at: u128, autocommit: bool },
}

/// The storage handle of one connection: the partition of the lock manager,
/// the partition of the schemas, and the connection's transaction state.
pub struct FjallStorage {
    pub tx_partition: fjall::TransactionalPartitionHandle,
    pub schema_partition: fjall::TransactionalPartitionHandle,
    /// The txid under which a read outside any transaction registers itself.
    pub id_offset: u64,
    pub state: State,
    /// Transaction timeout in milliseconds; `None` for no timeout.
    pub tx_timeout: Option<u128>,
}

impl FjallStorage {
    /// A handle on two opened partitions: idle, with the default timeout.
    pub fn new(
        tx_partition: fjall::TransactionalPartitionHandle,
        schema_partition: fjall::TransactionalPartitionHandle,
    ) -> (storage: Self)
        ensures
            storage.state is Idle,
            storage.tx_timeout == Some(DEFAULT_TX_TIMEOUT),
            storage.id_offset == 0,
            storage.tx_partition == tx_partition,
            storage.schema_partition == schema_partition,
    {
        FjallStorage {
            tx_partition,
            schema_partition,
            id_offset: 0,
            state: State::Idle,
            tx_timeout: Some(DEFAULT_TX_TIMEOUT),
        }
    }

    /// Sets the transaction timeout and nothing else.
    pub fn set_transaction_timeout(&mut self, tx_timeout: Option<u128>)
        ensures
            final(self).tx_timeout == tx_timeout,
            final(self).state == old(self).state,
            final(self).id_offset == old(self).id_offset,
            final(self).tx_partition == old(self).tx_partition,
            final(self).schema_partition == old(self).schema_partition,
    {
        self.tx_timeout = tx_timeout;
    }
}

} // verus!
