//! The archive as the ingestion worker, the export and the search see it:
//! at most one record per id, kept in the order of their timestamps, with
//! deletion as a mark on the record.
use vstd::prelude::*;
use crate::messages::{Model, ModelView};
use crate::process::{Action, ActionView};
use crate::rollup::on_day;
use crate::server::{passed_over, rows_to_skip, SearchQuery};
use crate::timestamp::Timestamp;

verus! {

/// The mathematical value of each record of a list.
pub open spec fn views(rows: Seq<Model>) -> Seq<ModelView> {
    Seq::new(rows.len(), |i: int| rows[i]@)
}

/// Whether no record is sent before one that precedes it.
pub open spec fn ascending(rows: Seq<ModelView>) -> bool {
    forall|i: int, j: int| 0 <= i < j < rows.len() ==> rows[i].timestamp <= rows[j].timestamp
}

/// Whether each record is sent after the one that precedes it.
pub open spec fn strictly_ascending(rows: Seq<ModelView>) -> bool {
    forall|i: int, j: int| 0 <= i < j < rows.len() ==> rows[i].timestamp < rows[j].timestamp
}

/// Whether no two records share an id.
pub open spec fn unique_ids(rows: Seq<ModelView>) -> bool {
    forall|i: int, j: int| 0 <= i < j < rows.len() ==> rows[i].id != rows[j].id
}

/// Whether some record has the id.
pub open spec fn holds(rows: Seq<ModelView>, id: u128) -> bool {
    exists|i: int| 0 <= i < rows.len() && rows[i].id == id
}

/// What the archive maintains: records in the order of their timestamps, one
/// per id, each with a deletion time exactly when it is marked deleted.
pub open spec fn valid(rows: Seq<ModelView>) -> bool {
    &&& ascending(rows)
    &&& unique_ids(rows)
    &&& forall|i: int| 0 <= i < rows.len() ==> (#[trigger] rows[i]).wf()
}

/// Where a record sent at `at` goes: behind every record sent no later.
pub open spec fn slot_for(rows: Seq<ModelView>, at: int) -> int
    decreases rows.len(),
{
    if rows.len() == 0 || rows.last().timestamp <= at {
        rows.len() as int
    } else {
        slot_for(rows.drop_last(), at)
    }
}

/// The archive after an insert: unchanged where the id is taken.
pub open spec fn stored(rows: Seq<ModelView>, m: ModelView) -> Seq<ModelView> {
    if holds(rows, m.id) {
        rows
    } else {
        rows.insert(slot_for(rows, m.timestamp), m)
    }
}

/// The archive after a deletion: the record with the id, if there is one, is
/// marked; nothing is added or taken away.
pub open spec fn removed(rows: Seq<ModelView>, id: u128, at: int) -> Seq<ModelView> {
    Seq::new(
        rows.len(),
        |i: int|
            if rows[i].id == id {
                rows[i].marked(at)
            } else {
                rows[i]
            },
    )
}

/// The archive after an action of the extractor. A message is stored as not
/// deleted.
pub open spec fn applied(rows: Seq<ModelView>, action: ActionView) -> Seq<ModelView> {
    match action {
        ActionView::StoreMessage(m) => stored(rows, m.fresh()),
        ActionView::DeleteMessage { id, deleted_at } => removed(rows, id, deleted_at),
        _ => rows,
    }
}

/// The records that pass a test, in their order.
pub open spec fn kept(rows: Seq<ModelView>, keep: spec_fn(ModelView) -> bool) -> Seq<ModelView>
    decreases rows.len(),
{
    if rows.len() == 0 {
        rows
    } else if keep(rows.last()) {
        kept(rows.drop_last(), keep).push(rows.last())
    } else {
        kept(rows.drop_last(), keep)
    }
}

/// The records sent on UTC day `day`, in their order.
pub open spec fn day_rows(rows: Seq<ModelView>, day: int) -> Seq<ModelView> {
    kept(rows, |m: ModelView| on_day(m.timestamp, day))
}

/// The records that answer a query, in their order.
pub open spec fn matching(rows: Seq<ModelView>, q: SearchQuery) -> Seq<ModelView> {
    kept(rows, |m: ModelView| q.matches(m))
}

/// The last `limit` records of a list, or all of them where there are fewer.
pub open spec fn newest(rows: Seq<ModelView>, limit: int) -> Seq<ModelView> {
    rows.skip(passed_over(rows.len() as int, limit))
}

/// What a search returns: of the records that answer the query the newest
/// `limit`, oldest first.
pub open spec fn found(rows: Seq<ModelView>, q: SearchQuery) -> Seq<ModelView> {
    newest(matching(rows, q), q.limit as int)
}

/// Every record that passes a test was in the list, and only those that pass
/// are kept.
pub proof fn lemma_kept_members(rows: Seq<ModelView>, keep: spec_fn(ModelView) -> bool)
    ensures
        kept(rows, keep).len() <= rows.len(),
        forall|k: int|
            0 <= k < kept(rows, keep).len() ==> keep(#[trigger] kept(rows, keep)[k]) && exists|
                j: int,
            |
                0 <= j < rows.len() && rows[j] == kept(rows, keep)[k],
    decreases rows.len(),
{
    if rows.len() > 0 {
        let init = rows.drop_last();
        lemma_kept_members(init, keep);
        assert forall|k: int| 0 <= k < kept(rows, keep).len() implies keep(
            #[trigger] kept(rows, keep)[k],
        ) && exists|j: int| 0 <= j < rows.len() && rows[j] == kept(rows, keep)[k] by {
            if k < kept(init, keep).len() {
                let j = choose|j: int| 0 <= j < init.len() && init[j] == kept(init, keep)[k];
                assert(rows[j] == kept(rows, keep)[k]);
            } else {
                assert(rows[rows.len() - 1] == kept(rows, keep)[k]);
            }
        }
    }
}

/// Keeping some records of a list in timestamp order leaves them in
/// timestamp order, and strictly so where the list was.
pub proof fn lemma_kept_ascending(rows: Seq<ModelView>, keep: spec_fn(ModelView) -> bool)
    requires
        ascending(rows),
    ensures
        ascending(kept(rows, keep)),
        strictly_ascending(rows) ==> strictly_ascending(kept(rows, keep)),
    decreases rows.len(),
{
    if rows.len() > 0 {
        let init = rows.drop_last();
        let last = rows.last();
        assert forall|i: int, j: int| 0 <= i < j < init.len() implies init[i].timestamp
            <= init[j].timestamp by {
            assert(init[i] == rows[i] && init[j] == rows[j]);
        }
        if strictly_ascending(rows) {
            assert forall|i: int, j: int| 0 <= i < j < init.len() implies init[i].timestamp
                < init[j].timestamp by {
                assert(init[i] == rows[i] && init[j] == rows[j]);
            }
        }
        lemma_kept_ascending(init, keep);
        lemma_kept_members(init, keep);
        let out = kept(rows, keep);
        let head = kept(init, keep);
        assert forall|i: int, j: int| 0 <= i < j < out.len() implies out[i].timestamp
            <= out[j].timestamp && (strictly_ascending(rows) ==> out[i].timestamp
            < out[j].timestamp) by {
            if j < head.len() {
                assert(out[i] == head[i] && out[j] == head[j]);
            } else {
                assert(out[j] == last);
                assert(out[i] == head[i]);
                let k = choose|k: int| 0 <= k < init.len() && init[k] == head[i];
                assert(rows[k] == head[i]);
                assert(rows[rows.len() - 1] == last);
            }
        }
    }
}

/// Marking one message deleted twice, at one time, leaves the archive as the
/// first marking left it.
pub proof fn lemma_delete_idempotent(rows: Seq<ModelView>, id: u128, at: int)
    ensures
        removed(removed(rows, id, at), id, at) == removed(rows, id, at),
        applied(
            applied(rows, ActionView::DeleteMessage { id, deleted_at: at }),
            ActionView::DeleteMessage { id, deleted_at: at },
        ) == applied(rows, ActionView::DeleteMessage { id, deleted_at: at }),
{
    assert(removed(removed(rows, id, at), id, at) =~= removed(rows, id, at));
}

/// The export of a day lists its messages in the order of their timestamps:
/// none before an earlier one, and each strictly after the one before it
/// where no two messages of the archive share a timestamp.
pub proof fn lemma_export_ascending(rows: Seq<ModelView>, day: int)
    requires
        valid(rows),
    ensures
        ascending(day_rows(rows, day)),
        strictly_ascending(rows) ==> strictly_ascending(day_rows(rows, day)),
        forall|k: int|
            0 <= k < day_rows(rows, day).len() ==> on_day(
                (#[trigger] day_rows(rows, day)[k]).timestamp,
                day,
            ),
{
    let keep = |m: ModelView| on_day(m.timestamp, day);
    lemma_kept_ascending(rows, keep);
    lemma_kept_members(rows, keep);
}

/// A search returns no more than its limit. Where more messages answer the
/// query it returns exactly the limit, oldest first, and every message it
/// leaves out was sent no later than each one it returns.
pub proof fn lemma_search_newest(rows: Seq<ModelView>, q: SearchQuery)
    requires
        valid(rows),
    ensures
        found(rows, q).len() <= q.limit,
        ascending(found(rows, q)),
        matching(rows, q).len() <= q.limit ==> found(rows, q) == matching(rows, q),
        matching(rows, q).len() > q.limit ==> {
            let all = matching(rows, q);
            let left_out = all.len() - q.limit;
            &&& found(rows, q).len() == q.limit
            &&& forall|k: int| 0 <= k < q.limit ==> found(rows, q)[k] == all[left_out + k]
            &&& forall|i: int, k: int|
                0 <= i < left_out && 0 <= k < q.limit ==> (#[trigger] all[i]).timestamp <= (
                #[trigger] found(rows, q)[k]).timestamp
        },
{
    let keep = |m: ModelView| q.matches(m);
    lemma_kept_ascending(rows, keep);
    let all = matching(rows, q);
    if all.len() > q.limit {
        let left_out = all.len() - q.limit;
        assert forall|i: int, j: int| 0 <= i < j < found(rows, q).len() implies found(
            rows,
            q,
        )[i].timestamp <= found(rows, q)[j].timestamp by {
            assert(found(rows, q)[i] == all[left_out + i]);
            assert(found(rows, q)[j] == all[left_out + j]);
        }
    }
}

/// Where a record sent at `at` goes, every record before it was sent no
/// later, and every record from there on was sent later.
pub proof fn lemma_slot(rows: Seq<ModelView>, at: int)
    requires
        ascending(rows),
    ensures
        0 <= slot_for(rows, at) <= rows.len(),
        forall|i: int| 0 <= i < slot_for(rows, at) ==> (#[trigger] rows[i]).timestamp <= at,
        forall|i: int| slot_for(rows, at) <= i < rows.len() ==> (#[trigger] rows[i]).timestamp > at,
    decreases rows.len(),
{
    if rows.len() > 0 {
        if rows.last().timestamp <= at {
            assert forall|i: int| 0 <= i < rows.len() implies (#[trigger] rows[i]).timestamp
                <= at by {
                if i < rows.len() - 1 {
                    assert(rows[i].timestamp <= rows[rows.len() - 1].timestamp);
                }
            }
        } else {
            let init = rows.drop_last();
            assert forall|i: int, j: int| 0 <= i < j < init.len() implies init[i].timestamp
                <= init[j].timestamp by {
                assert(init[i] == rows[i] && init[j] == rows[j]);
            }
            lemma_slot(init, at);
            assert forall|i: int| 0 <= i < slot_for(rows, at) implies (#[trigger] rows[i]).timestamp
                <= at by {
                assert(rows[i] == init[i]);
            }
            assert forall|i: int| slot_for(rows, at) <= i < rows.len() implies (
            #[trigger] rows[i]).timestamp > at by {
                if i < rows.len() - 1 {
                    assert(rows[i] == init[i]);
                }
            }
        }
    }
}

/// An insert keeps the archive valid.
pub proof fn lemma_stored_valid(rows: Seq<ModelView>, m: ModelView)
    requires
        valid(rows),
        m.wf(),
    ensures
        valid(stored(rows, m)),
{
    if !holds(rows, m.id) {
        lemma_slot(rows, m.timestamp);
        let p = slot_for(rows, m.timestamp);
        let out = rows.insert(p, m);
        assert forall|i: int| 0 <= i < out.len() implies (#[trigger] out[i]).wf() by {
            if i < p {
                assert(out[i] == rows[i]);
            } else if i > p {
                assert(out[i] == rows[i - 1]);
            }
        }
        assert forall|i: int, j: int| 0 <= i < j < out.len() implies out[i].timestamp
            <= out[j].timestamp && out[i].id != out[j].id by {
            let a = if i < p { i } else { i - 1 };
            let b = if j < p { j } else { j - 1 };
            if i != p {
                assert(out[i] == rows[a]);
            }
            if j != p {
                assert(out[j] == rows[b]);
            }
        }
    }
}

/// A deletion keeps the archive valid.
pub proof fn lemma_removed_valid(rows: Seq<ModelView>, id: u128, at: int)
    requires
        valid(rows),
    ensures
        valid(removed(rows, id, at)),
{
    let out = removed(rows, id, at);
    assert forall|i: int| 0 <= i < out.len() implies (#[trigger] out[i]).wf() by {
        assert(rows[i].wf());
    }
}

/// Every action of the extractor keeps the archive valid.
pub proof fn lemma_applied_valid(rows: Seq<ModelView>, action: ActionView)
    requires
        valid(rows),
    ensures
        valid(applied(rows, action)),
{
    match action {
        ActionView::StoreMessage(m) => {
            lemma_stored_valid(rows, m.fresh());
        },
        ActionView::DeleteMessage { id, deleted_at } => {
            lemma_removed_valid(rows, id, deleted_at);
        },
        _ => {},
    }
}

/// A message that is stored and then deleted is in the archive once, marked
/// deleted at the time of the deletion and otherwise as it was stored.
pub proof fn lemma_store_then_delete(rows: Seq<ModelView>, m: ModelView, at: int)
    requires
        valid(rows),
        !holds(rows, m.id),
    ensures
        ({
            let after = applied(
                applied(rows, ActionView::StoreMessage(m)),
                ActionView::DeleteMessage { id: m.id, deleted_at: at },
            );
            let p = slot_for(rows, m.timestamp);
            &&& after.len() == rows.len() + 1
            &&& 0 <= p < after.len()
            &&& after[p] == m.fresh().marked(at)
            &&& forall|i: int| 0 <= i < after.len() && i != p ==> (#[trigger] after[i]).id != m.id
        }),
{
    lemma_slot(rows, m.timestamp);
    let p = slot_for(rows, m.timestamp);
    let mid = rows.insert(p, m.fresh());
    let after = removed(mid, m.id, at);
    assert forall|i: int| 0 <= i < after.len() && i != p implies (#[trigger] after[i]).id
        != m.id by {
        if i < p {
            assert(mid[i] == rows[i]);
        } else {
            assert(mid[i] == rows[i - 1]);
        }
    }
}

/// Why the archive refused a change.
#[derive(Debug, Clone, Copy, PartialEq, Eq, Structural)]
pub enum StoreError {
    /// A record with the id is there already.
    Conflict,
    /// No record has the id.
    NotFound,
}

/// What became of an action.
#[derive(Debug, Clone, Copy, PartialEq, Eq, Structural)]
pub enum Applied {
    /// The record was inserted.
    Inserted,
    /// The record was marked deleted.
    Deleted,
    /// The archive refused; it is unchanged.
    Refused(StoreError),
    /// The action asked for no change.
    Unchanged,
}

/// The archived messages.
#[derive(Debug)]
pub struct Archive {
    rows: Vec<Model>,
}

impl View for Archive {
    type V = Seq<ModelView>;

    closed spec fn view(&self) -> Seq<ModelView> {
        views(self.rows@)
    }
}

impl Archive {
    /// The archive is valid.
    pub open spec fn wf(&self) -> bool {
        valid(self@)
    }

    /// An archive without messages.
    pub fn new() -> (r: Archive)
        ensures
            r.wf(),
            r@ == Seq::<ModelView>::empty(),
    {
        let r = Archive { rows: Vec::new() };
        assert(r@ =~= Seq::<ModelView>::empty());
        r
    }

    /// The number of messages.
    pub fn len(&self) -> (r: usize)
        ensures
            r == self@.len(),
    {
        self.rows.len()
    }

    /// A copy of the message at position `i` in timestamp order.
    pub fn get(&self, i: usize) -> (r: Model)
        requires
            i < self@.len(),
        ensures
            r@ == self@[i as int],
    {
        self.rows[i].duplicate()
    }

    /// The position of the record with the id.
    fn index_of(&self, id: u128) -> (r: Option<usize>)
        ensures
            match r {
                Some(i) => i < self@.len() && self@[i as int].id == id,
                None => !holds(self@, id),
            },
    {
        let mut i: usize = 0;
        while i < self.rows.len()
            invariant
                i <= self.rows.len(),
                forall|k: int| 0 <= k < i ==> self@[k].id != id,
            decreases self.rows.len() - i,
        {
            if self.rows[i].id == id {
                return Some(i);
            }
            i = i + 1;
        }
        None
    }

    /// Whether some message has the id.
    pub fn contains(&self, id: u128) -> (r: bool)
        ensures
            r == holds(self@, id),
    {
        self.index_of(id).is_some()
    }

    /// Inserts a message. An id that is taken is a conflict, and nothing changes.
    pub fn insert(&mut self, message: Model) -> (r: Result<(), StoreError>)
        requires
            old(self).wf(),
            message.wf(),
        ensures
            final(self).wf(),
            final(self)@ == stored(old(self)@, message@),
            r == if holds(old(self)@, message@.id) {
                Err::<(), StoreError>(StoreError::Conflict)
            } else {
                Ok::<(), StoreError>(())
            },
    {
        if self.index_of(message.id).is_some() {
            return Err(StoreError::Conflict);
        }
        let at = message.timestamp.unix_millis();
        let mut p: usize = self.rows.len();
        assert(self@.take(p as int) == self@);
        while p > 0 && self.rows[p - 1].timestamp.unix_millis() > at
            invariant
                p <= self.rows.len(),
                slot_for(self@, at as int) == slot_for(self@.take(p as int), at as int),
            decreases p,
        {
            assert(self@.take(p as int).drop_last() == self@.take(p as int - 1));
            p = p - 1;
        }
        let ghost before = self@;
        proof {
            lemma_stored_valid(before, message@);
        }
        self.rows.insert(p, message);
        assert(self@ =~= before.insert(p as int, message@));
        Ok(())
    }

    /// Marks the message with the id as deleted at `at`. Where no message has
    /// the id, nothing changes and none is created.
    pub fn mark_deleted(&mut self, id: u128, at: Timestamp) -> (r: Result<(), StoreError>)
        requires
            old(self).wf(),
        ensures
            final(self).wf(),
            final(self)@ == removed(old(self)@, id, at@),
            r == if holds(old(self)@, id) {
                Ok::<(), StoreError>(())
            } else {
                Err::<(), StoreError>(StoreError::NotFound)
            },
    {
        let ghost before = self@;
        proof {
            lemma_removed_valid(before, id, at@);
        }
        match self.index_of(id) {
            None => {
                assert(self@ =~= removed(before, id, at@));
                Err(StoreError::NotFound)
            },
            Some(i) => {
                let mut row = self.rows[i].duplicate();
                row.deleted = true;
                row.deleted_at = Some(at);
                self.rows.set(i, row);
                assert(self@ =~= removed(before, id, at@)) by {
                    assert forall|k: int| 0 <= k < before.len() && k != i implies before[k].id
                        != id by {
                        if k < i {
                            assert(before[k].id != before[i as int].id);
                        } else {
                            assert(before[i as int].id != before[k].id);
                        }
                    }
                }
                Ok(())
            },
        }
    }

    /// Applies one action of the extractor, as the ingestion worker does: a
    /// message is stored as not deleted, a deletion marks the message it
    /// names, and any other action changes nothing.
    pub fn apply(&mut self, action: Action) -> (r: Applied)
        requires
            old(self).wf(),
        ensures
            final(self).wf(),
            final(self)@ == applied(old(self)@, action@),
            r == match action@ {
                ActionView::StoreMessage(m) => if holds(old(self)@, m.id) {
                    Applied::Refused(StoreError::Conflict)
                } else {
                    Applied::Inserted
                },
                ActionView::DeleteMessage { id, deleted_at } => if holds(old(self)@, id) {
                    Applied::Deleted
                } else {
                    Applied::Refused(StoreError::NotFound)
                },
                _ => Applied::Unchanged,
            },
    {
        match action {
            Action::StoreMessage(m) => {
                let mut record = m;
                record.deleted = false;
                record.deleted_at = None;
                match self.insert(record) {
                    Ok(()) => Applied::Inserted,
                    Err(why) => Applied::Refused(why),
                }
            },
            Action::DeleteMessage { id, deleted_at } => match self.mark_deleted(id, deleted_at) {
                Ok(()) => Applied::Deleted,
                Err(why) => Applied::Refused(why),
            },
            Action::Notice { body } => Applied::Unchanged,
            Action::Ignore(why) => Applied::Unchanged,
        }
    }

    /// The messages sent on UTC day `day`, oldest first.
    pub fn export_day(&self, day: i64) -> (r: Vec<Model>)
        requires
            self.wf(),
        ensures
            views(r@) == day_rows(self@, day as int),
            ascending(views(r@)),
            strictly_ascending(self@) ==> strictly_ascending(views(r@)),
    {
        let ghost keep = |m: ModelView| on_day(m.timestamp, day as int);
        let mut out: Vec<Model> = Vec::new();
        let mut i: usize = 0;
        assert(views(out@) =~= kept(self@.take(0), keep));
        while i < self.rows.len()
            invariant
                i <= self.rows.len(),
                keep == |m: ModelView| on_day(m.timestamp, day as int),
                views(out@) == kept(self@.take(i as int), keep),
            decreases self.rows.len() - i,
        {
            let ghost head = views(out@);
            assert(self@.take(i as int + 1).drop_last() == self@.take(i as int));
            proof {
                crate::rollup::lemma_on_day(self@[i as int].timestamp, day as int);
            }
            if self.rows[i].timestamp.day() == day {
                out.push(self.rows[i].duplicate());
                assert(views(out@) =~= head.push(self@[i as int]));
            }
            i = i + 1;
        }
        assert(self@.take(i as int) == self@);
        proof {
            lemma_export_ascending(self@, day as int);
        }
        out
    }

    /// The messages that answer a query: the newest `limit` of them, oldest
    /// first.
    pub fn search(&self, q: &SearchQuery) -> (r: Vec<Model>)
        requires
            self.wf(),
        ensures
            views(r@) == found(self@, *q),
            ascending(views(r@)),
            r.len() <= q.limit,
    {
        let ghost keep = |m: ModelView| q.matches(m);
        let mut hits: Vec<usize> = Vec::new();
        let mut i: usize = 0;
        assert(self@.take(0).len() == 0);
        while i < self.rows.len()
            invariant
                i <= self.rows.len(),
                keep == |m: ModelView| q.matches(m),
                hits.len() == kept(self@.take(i as int), keep).len(),
                forall|k: int| 0 <= k < hits.len() ==> (#[trigger] hits[k]) < i,
                forall|k: int|
                    0 <= k < hits.len() ==> self@[hits[k] as int] == #[trigger] kept(
                        self@.take(i as int),
                        keep,
                    )[k],
            decreases self.rows.len() - i,
        {
            let ghost head = kept(self@.take(i as int), keep);
            let ghost marks = hits@;
            assert(self@.take(i as int + 1).drop_last() == self@.take(i as int));
            assert(self@.take(i as int + 1).last() == self@[i as int]);
            if q.accepts(&self.rows[i]) {
                hits.push(i);
                assert(kept(self@.take(i as int + 1), keep) == head.push(self@[i as int]));
                assert forall|k: int| 0 <= k < hits.len() implies self@[hits[k] as int]
                    == #[trigger] kept(self@.take(i as int + 1), keep)[k] by {
                    if k < marks.len() {
                        assert(hits[k] == marks[k]);
                        assert(self@[marks[k] as int] == head[k]);
                    }
                }
            } else {
                assert(kept(self@.take(i as int + 1), keep) == head);
            }
            i = i + 1;
        }
        assert(self@.take(i as int) == self@);
        let n = hits.len();
        let skip: usize = rows_to_skip(n as u64, q.limit) as usize;
        let mut out: Vec<Model> = Vec::new();
        let mut k: usize = skip;
        while k < n
            invariant
                skip <= k <= n,
                n == hits.len(),
                out.len() == k - skip,
                forall|j: int| 0 <= j < hits.len() ==> (#[trigger] hits[j]) < self.rows.len(),
                forall|j: int|
                    0 <= j < hits.len() ==> self@[hits[j] as int] == #[trigger] matching(self@, *q)[j],
                forall|j: int| 0 <= j < out.len() ==> out[j]@ == self@[hits[skip + j] as int],
            decreases n - k,
        {
            out.push(self.rows[hits[k]].duplicate());
            k = k + 1;
        }
        assert(hits.len() == matching(self@, *q).len());
        assert(views(out@) =~= found(self@, *q));
        proof {
            lemma_search_newest(self@, *q);
        }
        out
    }
}

} // verus!
