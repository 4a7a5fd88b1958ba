//! What holds of the ledger under any sequence of inserts.
//!
//! Overlapping watcher cycles reach the ledger as some interleaving of their
//! inserts. The laws here are stated for every such sequence: the uniqueness
//! constraint survives it, a key once recorded stays recorded, and of all the
//! inserts that carry one key exactly one succeeds.

use crate::ledger::{KeyView, LedgerError, LedgerView};
use vstd::prelude::*;

verus! {

/// One insert as it reaches the ledger.
pub struct RecordCall {
    pub key: KeyView,
    pub title: Seq<char>,
}

/// The ledger after the given inserts, made in order.
pub open spec fn after_records(ledger: LedgerView, calls: Seq<RecordCall>) -> LedgerView
    decreases calls.len(),
{
    if calls.len() == 0 {
        ledger
    } else {
        after_records(ledger, calls.drop_last()).after_record(calls.last().key, calls.last().title)
    }
}

/// What the insert at position `i` of the sequence answers.
pub open spec fn answer(ledger: LedgerView, calls: Seq<RecordCall>, i: int) -> Result<
    (),
    LedgerError,
> {
    after_records(ledger, calls.take(i)).record_result(calls[i].key)
}

/// Whether one of the first `n` inserts carries `key`.
pub open spec fn called_before(calls: Seq<RecordCall>, key: KeyView, n: int) -> bool {
    exists|j: int| 0 <= j < n && j < calls.len() && (#[trigger] calls[j]).key == key
}

/// No insert of the sequence that carries `key` is rejected for want of
/// room.
pub open spec fn never_rejected(ledger: LedgerView, calls: Seq<RecordCall>, key: KeyView) -> bool {
    forall|i: int|
        0 <= i < calls.len() && (#[trigger] calls[i]).key == key ==> answer(ledger, calls, i) != Err::<
            (),
            LedgerError,
        >(LedgerError::StorageFailure)
}

/// An insert keeps the ledger well formed, leaves every row that was there
/// as it was, and changes the answer of `has` for its own key only, and only
/// when it succeeds.
pub proof fn lemma_record_step(ledger: LedgerView, key: KeyView, title: Seq<char>, other: KeyView)
    requires
        ledger.wf(),
    ensures
        ledger.after_record(key, title).wf(),
        ledger.after_record(key, title).capacity == ledger.capacity,
        ledger.milestone_posts.is_prefix_of(ledger.after_record(key, title).milestone_posts),
        ledger.merge_train.is_prefix_of(ledger.after_record(key, title).merge_train),
        ledger.after_record(key, title).has(other) <==> ledger.has(other) || (other == key
            && ledger.record_result(key) is Ok),
{
    let after = ledger.after_record(key, title);
    assert(after.milestone_posts.take(ledger.milestone_posts.len() as int)
        =~= ledger.milestone_posts);
    assert(after.merge_train.take(ledger.merge_train.len() as int) =~= ledger.merge_train);
    if ledger.record_result(key) is Ok {
        let kind = key.kind();
        let old_rows = ledger.table(kind);
        let row = ledger.new_row(key, title);
        let new_rows = after.table(kind);
        assert(new_rows == old_rows.push(row));
        assert(new_rows[old_rows.len() as int] == row);
        assert forall|i: int, j: int| 0 <= i < j < new_rows.len() implies (
        #[trigger] new_rows[i]).key != (#[trigger] new_rows[j]).key by {
            if j == old_rows.len() {
                assert(old_rows[i].key != key);
            }
        }
        if other.kind() == kind {
            if ledger.has(other) {
                let i = choose|i: int| 0 <= i < old_rows.len() && (#[trigger] old_rows[i]).key == other;
                assert(new_rows[i].key == other);
            }
            if after.has(other) {
                let i = choose|i: int| 0 <= i < new_rows.len() && (#[trigger] new_rows[i]).key == other;
                if i < old_rows.len() {
                    assert(old_rows[i].key == other);
                }
            }
        }
    }
}

/// What an insert answers depends on the inserts before it alone.
pub proof fn lemma_answer_of_prefix(ledger: LedgerView, calls: Seq<RecordCall>, n: int, i: int)
    requires
        0 <= i < n <= calls.len(),
    ensures
        answer(ledger, calls.take(n), i) == answer(ledger, calls, i),
{
    assert(calls.take(n).take(i) =~= calls.take(i));
}

/// After any sequence of inserts the ledger is well formed and holds every
/// row it held before, unchanged: no record is ever updated or deleted.
/// Where no insert that carried `key` was rejected for want of room, the key
/// is present at the end iff it was present at the start or one of the
/// inserts carried it.
pub proof fn lemma_after_records(ledger: LedgerView, calls: Seq<RecordCall>, key: KeyView)
    requires
        ledger.wf(),
    ensures
        after_records(ledger, calls).wf(),
        after_records(ledger, calls).capacity == ledger.capacity,
        ledger.milestone_posts.is_prefix_of(after_records(ledger, calls).milestone_posts),
        ledger.merge_train.is_prefix_of(after_records(ledger, calls).merge_train),
        ledger.has(key) ==> after_records(ledger, calls).has(key),
        never_rejected(ledger, calls, key) ==> (after_records(ledger, calls).has(key)
            <==> ledger.has(key) || called_before(calls, key, calls.len() as int)),
    decreases calls.len(),
{
    if calls.len() == 0 {
        assert(ledger.milestone_posts.take(ledger.milestone_posts.len() as int)
            =~= ledger.milestone_posts);
        assert(ledger.merge_train.take(ledger.merge_train.len() as int) =~= ledger.merge_train);
    } else {
        let earlier = calls.drop_last();
        let last = calls.last();
        let before = after_records(ledger, earlier);
        lemma_after_records(ledger, earlier, key);
        lemma_record_step(before, last.key, last.title, key);
        let after = after_records(ledger, calls);
        assert(after.milestone_posts.take(ledger.milestone_posts.len() as int)
            =~= before.milestone_posts.take(ledger.milestone_posts.len() as int));
        assert(after.merge_train.take(ledger.merge_train.len() as int) =~= before.merge_train.take(
            ledger.merge_train.len() as int,
        ));
        if never_rejected(ledger, calls, key) {
            assert(never_rejected(ledger, earlier, key)) by {
                assert forall|i: int| 0 <= i < earlier.len() && (#[trigger] earlier[i]).key
                    == key implies answer(ledger, earlier, i) != Err::<(), LedgerError>(
                    LedgerError::StorageFailure,
                ) by {
                    lemma_answer_of_prefix(ledger, calls, calls.len() - 1, i);
                    assert(calls[i].key == key);
                }
            }
            if last.key == key {
                assert(calls[calls.len() - 1].key == key);
                assert(calls.take(calls.len() - 1) =~= earlier);
                assert(answer(ledger, calls, calls.len() - 1) == before.record_result(key));
            }
            if called_before(earlier, key, earlier.len() as int) {
                let j = choose|j: int|
                    0 <= j < earlier.len() && j < earlier.len() && (#[trigger] earlier[j]).key
                        == key;
                assert(calls[j].key == key);
            }
            if called_before(calls, key, calls.len() as int) && last.key != key {
                let j = choose|j: int|
                    0 <= j < calls.len() && j < calls.len() && (#[trigger] calls[j]).key == key;
                assert(earlier[j].key == key);
            }
        }
    }
}

/// Uniqueness. Take any sequence of inserts, of any keys and in any
/// interleaving, made on a well-formed ledger, in which no insert that
/// carries `key` is rejected for want of room. An insert that carries `key`
/// succeeds iff the key was absent at the start and no earlier insert of the
/// sequence carried it; every other insert with that key answers
/// `AlreadyExists`.
pub proof fn lemma_record_unique(ledger: LedgerView, calls: Seq<RecordCall>, key: KeyView, i: int)
    requires
        ledger.wf(),
        never_rejected(ledger, calls, key),
        0 <= i < calls.len(),
        calls[i].key == key,
    ensures
        answer(ledger, calls, i) == if ledger.has(key) || called_before(calls, key, i) {
            Err::<(), LedgerError>(LedgerError::AlreadyExists)
        } else {
            Ok::<(), LedgerError>(())
        },
{
    let earlier = calls.take(i);
    lemma_after_records(ledger, earlier, key);
    assert(never_rejected(ledger, earlier, key)) by {
        assert forall|j: int| 0 <= j < earlier.len() && (#[trigger] earlier[j]).key
            == key implies answer(ledger, earlier, j) != Err::<(), LedgerError>(
            LedgerError::StorageFailure,
        ) by {
            lemma_answer_of_prefix(ledger, calls, i, j);
            assert(calls[j].key == key);
        }
    }
    if called_before(earlier, key, earlier.len() as int) {
        let j = choose|j: int|
            0 <= j < earlier.len() && j < earlier.len() && (#[trigger] earlier[j]).key == key;
        assert(calls[j].key == key);
    }
    if called_before(calls, key, i) {
        let j = choose|j: int| 0 <= j < i && j < calls.len() && (#[trigger] calls[j]).key == key;
        assert(earlier[j].key == key);
    }
}

/// Of all the inserts of a sequence that carry one key, at most one
/// succeeds, and exactly one where the key was absent at the start: the
/// first of them.
pub proof fn lemma_exactly_one_succeeds(
    ledger: LedgerView,
    calls: Seq<RecordCall>,
    key: KeyView,
    i: int,
    j: int,
)
    requires
        ledger.wf(),
        never_rejected(ledger, calls, key),
        0 <= i < j < calls.len(),
        calls[i].key == key,
        calls[j].key == key,
    ensures
        answer(ledger, calls, j) == Err::<(), LedgerError>(LedgerError::AlreadyExists),
        !ledger.has(key) && !called_before(calls, key, i) ==> answer(ledger, calls, i) is Ok,
{
    lemma_record_unique(ledger, calls, key, i);
    lemma_record_unique(ledger, calls, key, j);
    assert(called_before(calls, key, j));
}

} // verus!
