//! The version envelope: the recorded versions of one schema or row, and the
//! rule by which a reader sees one of them, or none.

use vstd::prelude::*;

verus! {

/// One recorded version. `data` is `None` for a tombstone.
#[derive(Debug, Clone, PartialEq, Eq)]
pub struct SnapshotItem<T> {
    pub data: Option<T>,
    pub created_by: u64,
}

/// The versions recorded for one logical key, oldest first. A writer's
/// consecutive writes collapse into its one open version, so no two
/// neighbouring versions come from the same transaction.
#[derive(Debug, Clone, PartialEq, Eq)]
pub struct Snapshot<T> {
    pub items: Vec<SnapshotItem<T>>,
}

/// Whether a version written by `created_by` may be shown to `reader` while
/// `writer` holds the lock: the writer sees everything, anyone else sees what
/// the writer did not write.
pub open spec fn admissible(created_by: u64, reader: u64, writer: Option<u64>) -> bool {
    match writer {
        Some(w) => w == reader || created_by != w,
        None => true,
    }
}

/// What `reader` sees in `items` while `writer` holds the lock: the payload of
/// the newest admissible version, `None` where that is a tombstone or where no
/// version is admissible.
pub open spec fn visible<T>(items: Seq<SnapshotItem<T>>, reader: u64, writer: Option<u64>) -> Option<
    T,
>
    decreases items.len(),
{
    if items.len() == 0 {
        None
    } else if admissible(items.last().created_by, reader, writer) {
        items.last().data
    } else {
        visible(items.drop_last(), reader, writer)
    }
}

/// The versions after `txid` has written `data`: its open version, if it is
/// the newest, is replaced; otherwise a new version is added.
pub open spec fn recorded<T>(items: Seq<SnapshotItem<T>>, txid: u64, data: Option<T>) -> Seq<
    SnapshotItem<T>,
> {
    let item = SnapshotItem { data, created_by: txid };
    if items.len() > 0 && items.last().created_by == txid {
        items.drop_last().push(item)
    } else {
        items.push(item)
    }
}

/// No two neighbouring versions come from the same transaction.
pub open spec fn collapsed<T>(items: Seq<SnapshotItem<T>>) -> bool {
    forall|i: int| 0 <= i < items.len() - 1 ==> (#[trigger] items[i]).created_by != items[i + 1].created_by
}

/// Decides `admissible`.
pub fn is_admissible(created_by: u64, reader: u64, writer: Option<u64>) -> (shown: bool)
    ensures
        shown == admissible(created_by, reader, writer),
{
    match writer {
        Some(w) => w == reader || created_by != w,
        None => true,
    }
}

impl<T> Snapshot<T> {
    /// The recorded versions, oldest first.
    pub open spec fn view(&self) -> Seq<SnapshotItem<T>> {
        self.items@
    }

    /// The invariant of an envelope.
    pub open spec fn well_formed(&self) -> bool {
        collapsed(self@)
    }

    /// The envelope of a key that `txid` has just created with `data`.
    pub fn new(txid: u64, data: T) -> (snapshot: Self)
        ensures
            snapshot@ == seq![SnapshotItem { data: Some(data), created_by: txid }],
            snapshot.well_formed(),
    {
        let mut items = Vec::new();
        items.push(SnapshotItem { data: Some(data), created_by: txid });
        assert(items@ =~= seq![SnapshotItem { data: Some(data), created_by: txid }]);
        Snapshot { items }
    }

    /// Records that `txid` has written `data` (`None` deletes).
    pub fn record(self, txid: u64, data: Option<T>) -> (snapshot: Self)
        ensures
            snapshot@ == recorded(self@, txid, data),
            self.well_formed() ==> snapshot.well_formed(),
    {
        let mut items = self.items;
        let n = items.len();
        if n > 0 && items[n - 1].created_by == txid {
            items.pop();
        }
        items.push(SnapshotItem { data, created_by: txid });
        assert(items@ =~= recorded(self@, txid, data));
        Snapshot { items }
    }

    /// Records that `txid` has written `data`.
    pub fn update(self, txid: u64, data: T) -> (snapshot: Self)
        ensures
            snapshot@ == recorded(self@, txid, Some(data)),
            self.well_formed() ==> snapshot.well_formed(),
    {
        self.record(txid, Some(data))
    }

    /// Records that `txid` has deleted the key.
    pub fn delete(self, txid: u64) -> (snapshot: Self)
        ensures
            snapshot@ == recorded(self@, txid, None),
            self.well_formed() ==> snapshot.well_formed(),
    {
        self.record(txid, None)
    }

    /// Hands out what the reader `txid` sees while `lock_txid` holds the lock.
    pub fn extract(self, txid: u64, lock_txid: Option<u64>) -> (seen: Option<T>)
        ensures
            seen == visible(self@, txid, lock_txid),
    {
        let mut items = self.items;
        loop
            invariant
                visible(items@, txid, lock_txid) == visible(self@, txid, lock_txid),
            decreases items.len(),
        {
            match items.pop() {
                None => {
                    return None;
                },
                Some(item) => {
                    if is_admissible(item.created_by, txid, lock_txid) {
                        return item.data;
                    }
                },
            }
        }
    }
}

/// The writer sees its own latest write, a delete included.
pub proof fn lemma_writer_reads_own_write<T>(
    items: Seq<SnapshotItem<T>>,
    writer: u64,
    data: Option<T>,
)
    ensures
        visible(recorded(items, writer, data), writer, Some(writer)) == data,
{
}

/// While `writer` holds the lock, what any other reader sees is the same
/// before and after a write of the writer.
pub proof fn lemma_other_reader_sees_prior_state<T>(
    items: Seq<SnapshotItem<T>>,
    writer: u64,
    reader: u64,
    data: Option<T>,
)
    requires
        reader != writer,
    ensures
        visible(recorded(items, writer, data), reader, Some(writer)) == visible(
            items,
            reader,
            Some(writer),
        ),
{
    let item = SnapshotItem { data, created_by: writer };
    if items.len() > 0 && items.last().created_by == writer {
        assert(items.drop_last().push(item).drop_last() =~= items.drop_last());
    } else {
        assert(items.push(item).drop_last() =~= items);
    }
}

/// Taking the lock changes nothing by itself: as long as the holder has not
/// written to an envelope, every reader sees in it what it saw while nobody
/// held the lock.
pub proof fn lemma_unwritten_envelope_unchanged<T>(
    items: Seq<SnapshotItem<T>>,
    writer: u64,
    reader: u64,
)
    requires
        forall|i: int| 0 <= i < items.len() ==> (#[trigger] items[i]).created_by != writer,
    ensures
        visible(items, reader, Some(writer)) == visible(items, reader, None),
{
    if items.len() > 0 {
        assert(items[items.len() - 1].created_by != writer);
    }
}

/// What a reader sees is the payload of the newest admissible version: no
/// newer version is admissible, and where none at all is, nothing is seen.
pub proof fn lemma_visible_is_newest_admissible<T>(
    items: Seq<SnapshotItem<T>>,
    reader: u64,
    writer: Option<u64>,
)
    ensures
        (forall|i: int| 0 <= i < items.len() ==> !admissible(
            (#[trigger] items[i]).created_by,
            reader,
            writer,
        )) ==> visible(items, reader, writer) is None,
        forall|k: int|
            0 <= k < items.len() && admissible((#[trigger] items[k]).created_by, reader, writer) && (
            forall|j: int| k < j < items.len() ==> !admissible(
                (#[trigger] items[j]).created_by,
                reader,
                writer,
            )) ==> visible(items, reader, writer) == items[k].data,
    decreases items.len(),
{
    if items.len() > 0 {
        lemma_visible_is_newest_admissible(items.drop_last(), reader, writer);
        if !admissible(items.last().created_by, reader, writer) {
            assert forall|k: int|
                0 <= k < items.len() && admissible((#[trigger] items[k]).created_by, reader, writer)
                    && (forall|j: int| k < j < items.len() ==> !admissible(
                    (#[trigger] items[j]).created_by,
                    reader,
                    writer,
                )) implies visible(items, reader, writer) == items[k].data by {
                assert(k < items.len() - 1);
                assert(items.drop_last()[k] == items[k]);
                assert forall|j: int| k < j < items.drop_last().len() implies !admissible(
                    (#[trigger] items.drop_last()[j]).created_by,
                    reader,
                    writer,
                ) by {
                    assert(items.drop_last()[j] == items[j]);
                }
            }
            if forall|i: int| 0 <= i < items.len() ==> !admissible(
                (#[trigger] items[i]).created_by,
                reader,
                writer,
            ) {
                assert forall|i: int| 0 <= i < items.drop_last().len() implies !admissible(
                    (#[trigger] items.drop_last()[i]).created_by,
                    reader,
                    writer,
                ) by {
                    assert(items.drop_last()[i] == items[i]);
                }
            }
        } else {
            assert forall|k: int|
                0 <= k < items.len() && admissible((#[trigger] items[k]).created_by, reader, writer)
                    && (forall|j: int| k < j < items.len() ==> !admissible(
                    (#[trigger] items[j]).created_by,
                    reader,
                    writer,
                )) implies visible(items, reader, writer) == items[k].data by {
                if k < items.len() - 1 {
                    assert(!admissible(items[items.len() - 1].created_by, reader, writer));
                }
            }
        }
    }
}

} // verus!
