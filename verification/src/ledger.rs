//! The dedup ledger: which upstream events have already led to a post.
//!
//! One table per family of events, each with a uniqueness constraint over
//! its natural key. `record` is an insert that itself fails on a duplicate
//! key, so it is safe to call whatever an earlier `has` answered.

use crate::pipeline::{Action, ActionView, Event, EventView};
use vstd::prelude::*;

verus! {

/// The families of events that are watched, one ledger table each.
#[derive(Clone, Copy, Debug, PartialEq, Eq, Structural)]
pub enum EventKind {
    /// An issue reached a milestone.
    Milestone,
    /// A feed item, identified by its content id.
    Content,
}

/// Why the ledger refused to store a dedup record.
#[derive(Clone, Copy, Debug, PartialEq, Eq, Structural)]
pub enum LedgerError {
    /// The natural key is already present. Expected under overlapping
    /// cycles; callers treat it like a `has` hit.
    AlreadyExists,
    /// The write was rejected for any other reason.
    StorageFailure,
}

impl LedgerError {
    /// What an insert that the store rejected stands for: `AlreadyExists`
    /// where the store named its uniqueness constraint as the reason,
    /// `StorageFailure` for every other reason.
    pub fn of_rejected_insert(unique_violation: bool) -> (e: LedgerError)
        ensures
            e == if unique_violation {
                LedgerError::AlreadyExists
            } else {
                LedgerError::StorageFailure
            },
    {
        if unique_violation {
            LedgerError::AlreadyExists
        } else {
            LedgerError::StorageFailure
        }
    }
}

/// The minimal set of fields that identifies one upstream event.
#[derive(Debug, PartialEq, Eq)]
pub enum NaturalKey {
    /// Issue `issue_id` reached the milestone labelled `milestone`.
    Milestone { issue_id: u64, milestone: String },
    /// The feed item with content id `cid`.
    Content { cid: String },
}

/// A natural key as a mathematical value.
pub enum KeyView {
    Milestone { issue_id: u64, milestone: Seq<char> },
    Content { cid: Seq<char> },
}

impl KeyView {
    /// The family, and so the table, that the key belongs to.
    pub open spec fn kind(self) -> EventKind {
        match self {
            KeyView::Milestone { .. } => EventKind::Milestone,
            KeyView::Content { .. } => EventKind::Content,
        }
    }
}

impl View for NaturalKey {
    type V = KeyView;

    open spec fn view(&self) -> KeyView {
        match self {
            NaturalKey::Milestone { issue_id, milestone } => KeyView::Milestone {
                issue_id: *issue_id,
                milestone: milestone@,
            },
            NaturalKey::Content { cid } => KeyView::Content { cid: cid@ },
        }
    }
}

impl Clone for NaturalKey {
    fn clone(&self) -> (r: Self)
        ensures
            r == *self,
    {
        match self {
            NaturalKey::Milestone { issue_id, milestone } => NaturalKey::Milestone {
                issue_id: *issue_id,
                milestone: milestone.clone(),
            },
            NaturalKey::Content { cid } => NaturalKey::Content { cid: cid.clone() },
        }
    }
}

impl NaturalKey {
    /// The key of the event "issue `issue_id` reached `milestone`".
    pub fn milestone(issue_id: u64, milestone: String) -> (key: NaturalKey)
        ensures
            key@ == (KeyView::Milestone { issue_id, milestone: milestone@ }),
    {
        NaturalKey::Milestone { issue_id, milestone }
    }

    /// The key of the feed item with content id `cid`.
    pub fn content(cid: String) -> (key: NaturalKey)
        ensures
            key@ == (KeyView::Content { cid: cid@ }),
    {
        NaturalKey::Content { cid }
    }

    /// The family the key belongs to.
    pub fn kind(&self) -> (kind: EventKind)
        ensures
            kind == self@.kind(),
    {
        match self {
            NaturalKey::Milestone { .. } => EventKind::Milestone,
            NaturalKey::Content { .. } => EventKind::Content,
        }
    }

    /// Whether two keys identify the same event.
    pub fn matches(&self, other: &NaturalKey) -> (same: bool)
        ensures
            same == (self@ == other@),
    {
        match self {
            NaturalKey::Milestone { issue_id, milestone } => match other {
                NaturalKey::Milestone { issue_id: other_id, milestone: other_milestone } => {
                    *issue_id == *other_id && *milestone == *other_milestone
                },
                NaturalKey::Content { .. } => false,
            },
            NaturalKey::Content { cid } => match other {
                NaturalKey::Content { cid: other_cid } => *cid == *other_cid,
                NaturalKey::Milestone { .. } => false,
            },
        }
    }
}

/// The keys of a list as mathematical values.
pub open spec fn keys_view(keys: Seq<NaturalKey>) -> Seq<KeyView> {
    Seq::new(keys.len(), |i: int| keys[i]@)
}

/// One persisted row: proof that an event has already led to a post.
#[derive(Debug, PartialEq, Eq)]
pub struct DedupRecord {
    /// Row identity only; never part of the dedup contract.
    pub id: u64,
    /// The event that was handled.
    pub key: NaturalKey,
    /// Snapshot of the title, kept for audit.
    pub title: String,
}

/// A dedup record as a mathematical value.
pub struct RecordView {
    pub id: nat,
    pub key: KeyView,
    pub title: Seq<char>,
}

impl View for DedupRecord {
    type V = RecordView;

    open spec fn view(&self) -> RecordView {
        RecordView { id: self.id as nat, key: self.key@, title: self.title@ }
    }
}

impl Clone for DedupRecord {
    fn clone(&self) -> (r: Self)
        ensures
            r == *self,
    {
        DedupRecord { id: self.id, key: self.key.clone(), title: self.title.clone() }
    }
}

/// The rows of a table as mathematical values.
pub open spec fn rows_view(rows: Seq<DedupRecord>) -> Seq<RecordView> {
    Seq::new(rows.len(), |i: int| rows[i]@)
}

/// Whether a table holds a row with the given key.
pub open spec fn table_has(rows: Seq<RecordView>, key: KeyView) -> bool {
    exists|i: int| 0 <= i < rows.len() && (#[trigger] rows[i]).key == key
}

/// A well-formed table of one family: every row is of that family, no key
/// occurs twice, and rows are numbered from 1 in the order they were added.
pub open spec fn table_wf(rows: Seq<RecordView>, kind: EventKind) -> bool {
    &&& forall|i: int| 0 <= i < rows.len() ==> (#[trigger] rows[i]).key.kind() == kind
    &&& forall|i: int| 0 <= i < rows.len() ==> (#[trigger] rows[i]).id == i + 1
    &&& forall|i: int, j: int|
        0 <= i < j < rows.len() ==> (#[trigger] rows[i]).key != (#[trigger] rows[j]).key
}

/// The ledger as a mathematical value: its two tables and the number of rows
/// that each of them can take.
pub struct LedgerView {
    pub milestone_posts: Seq<RecordView>,
    pub merge_train: Seq<RecordView>,
    pub capacity: nat,
}

impl LedgerView {
    /// The table of one family.
    pub open spec fn table(self, kind: EventKind) -> Seq<RecordView> {
        match kind {
            EventKind::Milestone => self.milestone_posts,
            EventKind::Content => self.merge_train,
        }
    }

    /// The uniqueness constraints hold and no table is over its capacity.
    pub open spec fn wf(self) -> bool {
        &&& table_wf(self.milestone_posts, EventKind::Milestone)
        &&& table_wf(self.merge_train, EventKind::Content)
        &&& self.milestone_posts.len() <= self.capacity
        &&& self.merge_train.len() <= self.capacity
    }

    /// Whether a dedup record with this key exists.
    pub open spec fn has(self, key: KeyView) -> bool {
        table_has(self.table(key.kind()), key)
    }

    /// What an insert with this key answers.
    pub open spec fn record_result(self, key: KeyView) -> Result<(), LedgerError> {
        if self.has(key) {
            Err(LedgerError::AlreadyExists)
        } else if self.table(key.kind()).len() >= self.capacity {
            Err(LedgerError::StorageFailure)
        } else {
            Ok(())
        }
    }

    /// What the ledger answers to a call that a watcher asks for: whether the
    /// key is present, or how the insert went. Calls that are not addressed
    /// to the ledger get no answer.
    pub open spec fn answer(self, action: ActionView) -> Option<EventView> {
        match action {
            ActionView::Check { key } => Some(EventView::Checked(self.has(key))),
            ActionView::Record { key, title } => Some(EventView::Recorded(self.record_result(key))),
            _ => None,
        }
    }

    /// The ledger after a call that a watcher asks for: only an insert can
    /// change it.
    pub open spec fn after(self, action: ActionView) -> LedgerView {
        match action {
            ActionView::Record { key, title } => self.after_record(key, title),
            _ => self,
        }
    }

    /// The row that a successful insert adds.
    pub open spec fn new_row(self, key: KeyView, title: Seq<char>) -> RecordView {
        RecordView { id: self.table(key.kind()).len() + 1, key, title }
    }

    /// The ledger after an insert with this key and title: one row more in
    /// the key's table where the insert succeeds, unchanged where it fails.
    pub open spec fn after_record(self, key: KeyView, title: Seq<char>) -> LedgerView {
        if self.record_result(key) is Ok {
            match key.kind() {
                EventKind::Milestone => LedgerView {
                    milestone_posts: self.milestone_posts.push(self.new_row(key, title)),
                    ..self
                },
                EventKind::Content => LedgerView {
                    merge_train: self.merge_train.push(self.new_row(key, title)),
                    ..self
                },
            }
        } else {
            self
        }
    }
}

/// An in-memory ledger with the contract of the persistent one.
pub struct Ledger {
    milestone_posts: Vec<DedupRecord>,
    merge_train: Vec<DedupRecord>,
    capacity: usize,
}

impl View for Ledger {
    type V = LedgerView;

    closed spec fn view(&self) -> LedgerView {
        LedgerView {
            milestone_posts: rows_view(self.milestone_posts@),
            merge_train: rows_view(self.merge_train@),
            capacity: self.capacity as nat,
        }
    }
}

impl Ledger {
    /// An empty ledger without a practical limit on its size.
    pub fn new() -> (ledger: Ledger)
        ensures
            ledger@.wf(),
            ledger@.milestone_posts.len() == 0,
            ledger@.merge_train.len() == 0,
            ledger@.capacity == usize::MAX,
    {
        Ledger::with_capacity(usize::MAX)
    }

    /// An empty ledger whose tables take at most `capacity` rows each.
    pub fn with_capacity(capacity: usize) -> (ledger: Ledger)
        ensures
            ledger@.wf(),
            ledger@.milestone_posts.len() == 0,
            ledger@.merge_train.len() == 0,
            ledger@.capacity == capacity,
    {
        Ledger { milestone_posts: Vec::new(), merge_train: Vec::new(), capacity }
    }

    /// True iff a dedup record with `key` exists.
    pub fn has(&self, key: &NaturalKey) -> (found: bool)
        ensures
            found == self@.has(key@),
    {
        let table = match key {
            NaturalKey::Milestone { .. } => &self.milestone_posts,
            NaturalKey::Content { .. } => &self.merge_train,
        };
        assert(rows_view(table@) == self@.table(key@.kind()));
        let mut i: usize = 0;
        while i < table.len()
            invariant
                i <= table.len(),
                rows_view(table@) == self@.table(key@.kind()),
                forall|j: int| 0 <= j < i ==> (#[trigger] rows_view(table@)[j]).key != key@,
            decreases table.len() - i,
        {
            if table[i].key.matches(key) {
                assert(rows_view(table@)[i as int].key == key@);
                return true;
            }
            i += 1;
        }
        false
    }

    /// Inserts a dedup record for `key`.
    ///
    /// Fails with `AlreadyExists` iff the key is present, with
    /// `StorageFailure` iff it is absent and its table is full; the ledger is
    /// then unchanged. Otherwise the record is added as the table's last row.
    pub fn record(&mut self, key: NaturalKey, title: String) -> (r: Result<(), LedgerError>)
        requires
            old(self)@.wf(),
        ensures
            final(self)@.wf(),
            r == old(self)@.record_result(key@),
            final(self)@ == old(self)@.after_record(key@, title@),
    {
        if self.has(&key) {
            return Err(LedgerError::AlreadyExists);
        }
        let ghost before = self@;
        let ghost row = before.new_row(key@, title@);
        match key {
            NaturalKey::Milestone { .. } => {
                let n = self.milestone_posts.len();
                if n >= self.capacity {
                    return Err(LedgerError::StorageFailure);
                }
                let record = DedupRecord { id: (n + 1) as u64, key, title };
                assert(record@ == row);
                self.milestone_posts.push(record);
                assert(rows_view(self.milestone_posts@) =~= before.milestone_posts.push(row));
            },
            NaturalKey::Content { .. } => {
                let n = self.merge_train.len();
                if n >= self.capacity {
                    return Err(LedgerError::StorageFailure);
                }
                let record = DedupRecord { id: (n + 1) as u64, key, title };
                assert(record@ == row);
                self.merge_train.push(record);
                assert(rows_view(self.merge_train@) =~= before.merge_train.push(row));
            },
        }
        Ok(())
    }

    /// Makes the call that a watcher asks for, if it is addressed to the
    /// ledger, and hands back the outcome to report to the watcher.
    pub fn answer(&mut self, action: &Action) -> (event: Option<Event>)
        requires
            old(self)@.wf(),
        ensures
            final(self)@.wf(),
            final(self)@ == old(self)@.after(action@),
            match event {
                Some(event) => old(self)@.answer(action@) == Some(event@),
                None => old(self)@.answer(action@) is None,
            },
    {
        match action {
            Action::Check { key } => Some(Event::Checked(self.has(key))),
            Action::Record { key, title } => Some(
                Event::Recorded(self.record(key.clone(), title.clone())),
            ),
            _ => None,
        }
    }

    /// The number of dedup records of one family.
    pub fn len(&self, kind: EventKind) -> (n: usize)
        ensures
            n == self@.table(kind).len(),
    {
        match kind {
            EventKind::Milestone => self.milestone_posts.len(),
            EventKind::Content => self.merge_train.len(),
        }
    }

    /// The dedup record stored for `key`, if there is one.
    pub fn get(&self, key: &NaturalKey) -> (found: Option<DedupRecord>)
        ensures
            found is Some <==> self@.has(key@),
            found matches Some(record) ==> record@.key == key@ && self@.table(
                key@.kind(),
            ).contains(record@),
    {
        let table = match key {
            NaturalKey::Milestone { .. } => &self.milestone_posts,
            NaturalKey::Content { .. } => &self.merge_train,
        };
        assert(rows_view(table@) == self@.table(key@.kind()));
        let mut i: usize = 0;
        while i < table.len()
            invariant
                i <= table.len(),
                rows_view(table@) == self@.table(key@.kind()),
                forall|j: int| 0 <= j < i ==> (#[trigger] rows_view(table@)[j]).key != key@,
            decreases table.len() - i,
        {
            if table[i].key.matches(key) {
                assert(rows_view(table@)[i as int] == table@[i as int]@);
                return Some(table[i].clone());
            }
            i += 1;
        }
        None
    }
}

} // verus!
