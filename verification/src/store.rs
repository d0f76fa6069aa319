//! The read path: each read settles who reads and under which transaction,
//! asks the lock manager for the current writer, and fetches the stored
//! envelopes, of which the reader is then shown what `visible` allows.

use vstd::prelude::*;
use vstd::string::StringSliceAdditionalSpecFns;
use crate::{FjallStorage, State};
use crate::error::{EngineError, clock_failure, err_into, outcome, storage_msg, store_failure};
use crate::lock::{Lock, fetch, fetch_outcome, register, unregister};
use crate::snapshot::{Snapshot, visible};
use crate::substrate::{MAX_KEY_LEN, load, load_all};

verus! {

/// Under whom a read runs.
#[derive(Debug, Clone, Copy, PartialEq, Eq)]
pub struct ReadContext {
    /// The reading transaction.
    pub txid: u64,
    /// The transaction that holds the lock, if any.
    pub lock_txid: Option<u64>,
    /// Whether the reading transaction was registered for this read alone.
    pub ephemeral: bool,
}

/// The txid under which a schema read runs: that of the open transaction, or
/// `id_offset` for a throwaway one.
pub open spec fn schema_reader(state: State, id_offset: u64) -> u64 {
    match state {
        State::Transaction { txid, .. } => txid,
        State::Idle => id_offset,
    }
}

/// What a row read finds in the connection state: the open transaction's txid
/// and start, or the conflict that `operation` reports from `Idle`.
pub open spec fn row_reader(state: State, conflict: Seq<char>) -> Result<(u64, u128), Seq<char>> {
    match state {
        State::Transaction { txid, created_at, .. } => Ok((txid, created_at)),
        State::Idle => Err(conflict),
    }
}

/// Whether `answer` is one that the lock manager's `fetch` gives to the
/// reader `txid` of a schema read: for some lock record and clock reading,
/// and for a reader that began when the open transaction did or, from `Idle`,
/// when it was registered for the read.
pub open spec fn schema_read_answer(
    state: State,
    txid: u64,
    tx_timeout: Option<u128>,
    answer: Result<Option<u64>, Seq<char>>,
) -> bool {
    exists|lock: Lock, created_at: u128, now: u128|
        (state matches State::Transaction { created_at: began, .. } ==> began == created_at)
            && #[trigger] fetch_outcome(lock, txid, created_at, now, tx_timeout) == answer
}

/// Whether `answer` is one that the lock manager's `fetch` gives to the open
/// transaction of `state`, for some lock record and clock reading.
pub open spec fn row_read_answer(
    state: State,
    tx_timeout: Option<u128>,
    answer: Result<Option<u64>, Seq<char>>,
) -> bool {
    state matches State::Transaction { txid, created_at, .. } && exists|lock: Lock, now: u128| #[trigger]
        fetch_outcome(lock, txid, created_at, now, tx_timeout) == answer
}

/// The open transaction of a row read; from `Idle` the conflict `conflict`.
pub fn row_transaction(state: &State, conflict: &str) -> (r: Result<(u64, u128), EngineError>)
    ensures
        outcome(r) == row_reader(*state, conflict@),
{
    match state {
        State::Transaction { txid, created_at, .. } => Ok((*txid, *created_at)),
        State::Idle => Err(storage_msg(conflict)),
    }
}

/// Settles the reader of a schema read and asks for the current writer. From
/// `Idle` a throwaway transaction is registered under `id_offset`. The
/// writer in the context is what `fetch` answered to the reader; a failure is
/// a conflict that `fetch` answered, or one of the store or of the clock.
fn schema_context(
    tx_partition: &fjall::TransactionalPartitionHandle,
    state: &State,
    id_offset: u64,
    tx_timeout: Option<u128>,
) -> (r: Result<ReadContext, EngineError>)
    ensures
        r matches Ok(ctx) ==> ctx.txid == schema_reader(*state, id_offset) && ctx.ephemeral == (
        *state is Idle) && schema_read_answer(*state, ctx.txid, tx_timeout, Ok(ctx.lock_txid)),
        r matches Err(e) ==> store_failure(e) || clock_failure(e) || schema_read_answer(
            *state,
            schema_reader(*state, id_offset),
            tx_timeout,
            Err(e.text()),
        ),
{
    let (txid, created_at, ephemeral) = match state {
        State::Transaction { txid, created_at, .. } => (*txid, *created_at, false),
        State::Idle => match register(tx_partition, id_offset) {
            Ok((txid, created_at)) => (txid, created_at, true),
            Err(e) => {
                return Err(e);
            },
        },
    };
    match fetch(tx_partition, txid, created_at, tx_timeout) {
        Ok(lock_txid) => Ok(ReadContext { txid, lock_txid, ephemeral }),
        Err(e) => Err(e),
    }
}

/// Settles the reader of a row read and asks for the current writer. The
/// writer in the context is what `fetch` answered to the open transaction; a
/// failure is `conflict` from `Idle`, a conflict that `fetch` answered, or
/// one of the store or of the clock.
fn row_context(
    tx_partition: &fjall::TransactionalPartitionHandle,
    state: &State,
    tx_timeout: Option<u128>,
    conflict: &str,
) -> (r: Result<ReadContext, EngineError>)
    ensures
        *state is Idle ==> outcome(r) == Err::<ReadContext, Seq<char>>(conflict@),
        r matches Ok(ctx) ==> (row_reader(*state, conflict@) matches Ok(reader) && ctx.txid
            == reader.0 && !ctx.ephemeral && row_read_answer(
            *state,
            tx_timeout,
            Ok(ctx.lock_txid),
        )),
        r matches Err(e) ==> (*state is Idle && e.text() == conflict@) || store_failure(e)
            || clock_failure(e) || row_read_answer(*state, tx_timeout, Err(e.text())),
{
    let (txid, created_at) = match row_transaction(state, conflict) {
        Ok(reader) => reader,
        Err(e) => {
            return Err(e);
        },
    };
    match fetch(tx_partition, txid, created_at, tx_timeout) {
        Ok(lock_txid) => Ok(ReadContext { txid, lock_txid, ephemeral: false }),
        Err(e) => Err(e),
    }
}

impl FjallStorage {
    /// Reads the stored envelopes of all schemas, in the order of the table
    /// names. From `Idle` a throwaway transaction is registered under
    /// `id_offset` and left registered. The writer in the context is what
    /// `fetch` answered to the reader; a failure is a conflict that `fetch`
    /// answered, or one of the store or of the clock.
    pub fn fetch_all_schemas(&self) -> (r: Result<(ReadContext, Vec<Vec<u8>>), EngineError>)
        ensures
            r matches Ok(read) ==> read.0.txid == schema_reader(self.state, self.id_offset)
                && read.0.ephemeral == (self.state is Idle) && schema_read_answer(
                self.state,
                read.0.txid,
                self.tx_timeout,
                Ok(read.0.lock_txid),
            ),
            r matches Err(e) ==> store_failure(e) || clock_failure(e) || schema_read_answer(
                self.state,
                schema_reader(self.state, self.id_offset),
                self.tx_timeout,
                Err(e.text()),
            ),
    {
        let ctx = match schema_context(
            &self.tx_partition,
            &self.state,
            self.id_offset,
            self.tx_timeout,
        ) {
            Ok(ctx) => ctx,
            Err(e) => {
                return Err(e);
            },
        };
        match load_all(&self.schema_partition) {
            Ok(values) => Ok((ctx, values)),
            Err(e) => Err(err_into(e)),
        }
    }

    /// Reads the stored envelope of the schema of `table_name`, if there is
    /// one. The store takes no key of more than 65535 bytes. From `Idle` a throwaway transaction is registered under
    /// `id_offset` and unregistered again once the envelope is read. The
    /// writer in the context is what `fetch` answered to the reader; a
    /// failure is a conflict that `fetch` answered, from `Idle` also the
    /// conflict of an `unregister` that finds no entry, or one of the store
    /// or of the clock.
    pub fn fetch_schema(&self, table_name: &str) -> (r: Result<
        (ReadContext, Option<Vec<u8>>),
        EngineError,
    >)
        requires
            table_name.spec_bytes().len() <= MAX_KEY_LEN,
        ensures
            r matches Ok(read) ==> read.0.txid == schema_reader(self.state, self.id_offset)
                && read.0.ephemeral == (self.state is Idle) && schema_read_answer(
                self.state,
                read.0.txid,
                self.tx_timeout,
                Ok(read.0.lock_txid),
            ),
            r matches Err(e) ==> store_failure(e) || clock_failure(e) || schema_read_answer(
                self.state,
                schema_reader(self.state, self.id_offset),
                self.tx_timeout,
                Err(e.text()),
            ) || (self.state is Idle && e.text() == "conflict - lock does not exist"@),
    {
        let ctx = match schema_context(
            &self.tx_partition,
            &self.state,
            self.id_offset,
            self.tx_timeout,
        ) {
            Ok(ctx) => ctx,
            Err(e) => {
                return Err(e);
            },
        };
        let found = match load(&self.schema_partition, table_name.as_bytes()) {
            Ok(found) => found,
            Err(e) => {
                return Err(err_into(e));
            },
        };
        if ctx.ephemeral {
            if let Err(e) = unregister(&self.tx_partition, ctx.txid) {
                return Err(e);
            }
        }
        Ok((ctx, found))
    }

    /// Reads the stored envelope of the row under the encoded `key` in
    /// `table`, if there is one. The store takes no key of more than 65535
    /// bytes. A row read needs an open transaction: from `Idle` it fails
    /// with a conflict and registers nothing. The writer in the context is
    /// what `fetch` answered to the open transaction; any other failure is a
    /// conflict that `fetch` answered, or one of the store or of the clock.
    pub fn fetch_data(&self, table: &fjall::TransactionalPartitionHandle, key: &[u8]) -> (r: Result<
        (ReadContext, Option<Vec<u8>>),
        EngineError,
    >)
        requires
            key@.len() <= MAX_KEY_LEN,
        ensures
            self.state is Idle ==> outcome(r) == Err::<(ReadContext, Option<Vec<u8>>), Seq<char>>(
                "conflict - fetch_data failed, lock does not exist"@,
            ),
            r matches Ok(read) ==> (self.state matches State::Transaction { txid, .. }
                && read.0.txid == txid && !read.0.ephemeral && row_read_answer(
                self.state,
                self.tx_timeout,
                Ok(read.0.lock_txid),
            )),
            r matches Err(e) ==> (self.state is Idle && e.text()
                == "conflict - fetch_data failed, lock does not exist"@) || store_failure(e)
                || clock_failure(e) || row_read_answer(self.state, self.tx_timeout, Err(e.text())),
    {
        let ctx = match row_context(
            &self.tx_partition,
            &self.state,
            self.tx_timeout,
            "conflict - fetch_data failed, lock does not exist",
        ) {
            Ok(ctx) => ctx,
            Err(e) => {
                return Err(e);
            },
        };
        match load(table, key) {
            Ok(found) => Ok((ctx, found)),
            Err(e) => Err(err_into(e)),
        }
    }

    /// Opens a scan over the rows of a table: settles the reader and the
    /// current writer, under which each pulled entry is then shown through
    /// `visible_entry`. From `Idle` it fails with a conflict. The writer in
    /// the context is what `fetch` answered to the open transaction; any
    /// other failure is a conflict that `fetch` answered, or one of the store
    /// or of the clock.
    pub fn scan_data(&self) -> (r: Result<ReadContext, EngineError>)
        ensures
            self.state is Idle ==> outcome(r) == Err::<ReadContext, Seq<char>>(
                "conflict - scan_data failed, lock does not exist"@,
            ),
            r matches Ok(ctx) ==> (self.state matches State::Transaction { txid, .. } && ctx.txid
                == txid && !ctx.ephemeral && row_read_answer(
                self.state,
                self.tx_timeout,
                Ok(ctx.lock_txid),
            )),
            r matches Err(e) ==> (self.state is Idle && e.text()
                == "conflict - scan_data failed, lock does not exist"@) || store_failure(e)
                || clock_failure(e) || row_read_answer(self.state, self.tx_timeout, Err(e.text())),
    {
        row_context(
            &self.tx_partition,
            &self.state,
            self.tx_timeout,
            "conflict - scan_data failed, lock does not exist",
        )
    }
}

/// One step of a scan: the entry under `key` as the reader of `ctx` sees it,
/// or `None` where the row is deleted or not yet visible and the scan passes
/// over it.
pub fn visible_entry<T>(key: Vec<u8>, snapshot: Snapshot<T>, ctx: &ReadContext) -> (entry: Option<
    (Vec<u8>, T),
>)
    ensures
        match visible(snapshot@, ctx.txid, ctx.lock_txid) {
            Some(row) => entry == Some((key, row)),
            None => entry is None,
        },
{
    match snapshot.extract(ctx.txid, ctx.lock_txid) {
        Some(row) => Some((key, row)),
        None => None,
    }
}

/// What the reader sees of each envelope in turn, those passed over of which
/// it sees nothing.
pub open spec fn visible_all<T>(snapshots: Seq<Snapshot<T>>, reader: u64, writer: Option<u64>) -> Seq<
    T,
>
    decreases snapshots.len(),
{
    if snapshots.len() == 0 {
        Seq::empty()
    } else {
        let before = visible_all(snapshots.drop_last(), reader, writer);
        match visible(snapshots.last()@, reader, writer) {
            Some(value) => before.push(value),
            None => before,
        }
    }
}

/// The values that the reader of `ctx` sees in `snapshots`, in their order.
pub fn visible_values<T>(snapshots: Vec<Snapshot<T>>, ctx: &ReadContext) -> (values: Vec<T>)
    ensures
        values@ == visible_all(snapshots@, ctx.txid, ctx.lock_txid),
{
    let ghost all = snapshots@;
    let mut rest = snapshots;
    let mut pending: Vec<Snapshot<T>> = Vec::new();
    while rest.len() > 0
        invariant
            rest@.len() + pending@.len() == all.len(),
            rest@ =~= all.subrange(0, rest@.len() as int),
            forall|j: int| 0 <= j < pending@.len() ==> pending@[j] == all[all.len() - 1 - j],
        decreases rest@.len(),
    {
        if let Some(snapshot) = rest.pop() {
            pending.push(snapshot);
        }
    }
    let mut values: Vec<T> = Vec::new();
    assert(all.subrange(0, 0) =~= Seq::<Snapshot<T>>::empty());
    while pending.len() > 0
        invariant
            pending@.len() <= all.len(),
            forall|j: int| 0 <= j < pending@.len() ==> pending@[j] == all[all.len() - 1 - j],
            values@ == visible_all(
                all.subrange(0, all.len() - pending@.len()),
                ctx.txid,
                ctx.lock_txid,
            ),
        decreases pending@.len(),
    {
        let ghost i = all.len() - pending@.len();
        if let Some(snapshot) = pending.pop() {
            assert(snapshot == all[i]);
            assert(all.subrange(0, i + 1).drop_last() =~= all.subrange(0, i));
            assert(all.subrange(0, i + 1).last() == all[i]);
            if let Some(value) = snapshot.extract(ctx.txid, ctx.lock_txid) {
                values.push(value);
            }
        }
    }
    assert(all.subrange(0, all.len() as int) =~= all);
    values
}

} // verus!
