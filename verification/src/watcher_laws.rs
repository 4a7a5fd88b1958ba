//! What holds of every cycle, whatever the collaborators answer.
//!
//! A cycle is a start state and the sequence of events that the driver
//! reports. The laws speak of the calls that the watcher asks for along the
//! way: which candidate each call is for, and which event it answers.

use crate::ledger::LedgerView;
use crate::pipeline::{ActionView, EventView, OutcomeView};
use crate::watcher::{lemma_step_wf, Phase, WatcherView};
use vstd::prelude::*;

verus! {

/// The state after the given events, reported in order.
pub open spec fn run(s: WatcherView, events: Seq<EventView>) -> WatcherView
    decreases events.len(),
{
    if events.len() == 0 {
        s
    } else {
        run(s, events.drop_last()).step(events.last())
    }
}

/// The state in which the event at position `k` finds the watcher.
pub open spec fn state_at(s: WatcherView, events: Seq<EventView>, k: int) -> WatcherView {
    run(s, events.take(k))
}

/// The call that the watcher asks for in answer to the event at position
/// `k`; nothing if it was not waiting for that event.
pub open spec fn action_at(s: WatcherView, events: Seq<EventView>, k: int) -> Option<ActionView> {
    state_at(s, events, k).answer(events[k])
}

/// The event at position `k` makes the watcher ask for the summary of
/// candidate `i`.
pub open spec fn summarizes(s: WatcherView, events: Seq<EventView>, k: int, i: nat) -> bool {
    action_at(s, events, k) matches Some(ActionView::Summarize { .. }) && state_at(
        s,
        events,
        k,
    ).outcomes.len() == i
}

/// The event at position `k` makes the watcher hand the post for candidate
/// `i` to the publisher.
pub open spec fn publishes(s: WatcherView, events: Seq<EventView>, k: int, i: nat) -> bool {
    action_at(s, events, k) matches Some(ActionView::Publish { .. }) && state_at(
        s,
        events,
        k,
    ).outcomes.len() == i
}

/// The event at position `k` makes the watcher ask for the dedup record of
/// candidate `i`.
pub open spec fn records(s: WatcherView, events: Seq<EventView>, k: int, i: nat) -> bool {
    action_at(s, events, k) matches Some(ActionView::Record { .. }) && state_at(
        s,
        events,
        k,
    ).outcomes.len() == i
}

/// How far a phase is along the line that one candidate goes through.
pub open spec fn rank(phase: Phase) -> nat {
    match phase {
        Phase::Fetching => 0,
        Phase::Filtering => 1,
        Phase::Summarizing => 2,
        Phase::Publishing => 3,
        Phase::Recording => 4,
        Phase::Done => 5,
    }
}

/// State `b` is at or past state `a`: it has seen the candidates of `a` and
/// more, it has settled the outcomes of `a` and more, and where it has
/// settled no more, its phase is not behind.
pub open spec fn at_or_past(a: WatcherView, b: WatcherView) -> bool {
    &&& a.candidates.is_prefix_of(b.candidates)
    &&& a.outcomes.is_prefix_of(b.outcomes)
    &&& a.outcomes.len() == b.outcomes.len() ==> rank(a.phase) <= rank(b.phase)
}

/// A step never goes back.
pub proof fn lemma_step_advances(s: WatcherView, event: EventView)
    requires
        s.wf(),
    ensures
        at_or_past(s, s.step(event)),
{
    let t = s.step(event);
    assert(s.candidates.is_prefix_of(t.candidates)) by {
        if s.accepts(event) && event is Fetched {
            match event {
                EventView::Fetched(Ok(page)) => {
                    assert(t.candidates == s.candidates + page.candidates);
                    assert(t.candidates.take(s.candidates.len() as int) =~= s.candidates);
                },
                _ => {
                    assert(t.candidates.take(s.candidates.len() as int) =~= s.candidates);
                },
            }
        } else {
            assert(t.candidates == s.candidates);
            assert(t.candidates.take(s.candidates.len() as int) =~= s.candidates);
        }
    }
    assert(s.outcomes.is_prefix_of(t.outcomes)) by {
        assert(t.outcomes.take(s.outcomes.len() as int) =~= s.outcomes);
    }
}

/// The state that an event finds is the state that the event before it left.
pub proof fn lemma_state_at_next(s: WatcherView, events: Seq<EventView>, k: int)
    requires
        0 <= k < events.len(),
    ensures
        state_at(s, events, k + 1) == state_at(s, events, k).step(events[k]),
        state_at(s, events, 0) == s,
        state_at(s, events, events.len() as int) == run(s, events),
{
    assert(events.take(k + 1).drop_last() =~= events.take(k));
    assert(events.take(k + 1).last() == events[k]);
    assert(events.take(0) =~= Seq::empty());
    assert(events.take(events.len() as int) =~= events);
}

/// Every state of a cycle is well formed.
pub proof fn lemma_run_wf(s: WatcherView, events: Seq<EventView>, k: int)
    requires
        s.wf(),
        0 <= k <= events.len(),
    ensures
        state_at(s, events, k).wf(),
    decreases k,
{
    if k == 0 {
        assert(events.take(0) =~= Seq::empty());
    } else {
        lemma_run_wf(s, events, k - 1);
        lemma_state_at_next(s, events, k - 1);
        lemma_step_wf(state_at(s, events, k - 1), events[k - 1]);
    }
}

/// A cycle never goes back: a later state is at or past an earlier one.
pub proof fn lemma_run_advances(s: WatcherView, events: Seq<EventView>, a: int, b: int)
    requires
        s.wf(),
        0 <= a <= b <= events.len(),
    ensures
        at_or_past(state_at(s, events, a), state_at(s, events, b)),
    decreases b - a,
{
    let first = state_at(s, events, a);
    if a == b {
        assert(first.candidates.take(first.candidates.len() as int) =~= first.candidates);
        assert(first.outcomes.take(first.outcomes.len() as int) =~= first.outcomes);
    } else {
        let mid = state_at(s, events, b - 1);
        let last = state_at(s, events, b);
        lemma_run_advances(s, events, a, b - 1);
        lemma_run_wf(s, events, b - 1);
        lemma_state_at_next(s, events, b - 1);
        lemma_step_advances(mid, events[b - 1]);
        assert(first.candidates.is_prefix_of(last.candidates)) by {
            assert(last.candidates.take(first.candidates.len() as int) =~= mid.candidates.take(
                first.candidates.len() as int,
            ));
        }
        assert(first.outcomes.is_prefix_of(last.outcomes)) by {
            assert(last.outcomes.take(first.outcomes.len() as int) =~= mid.outcomes.take(
                first.outcomes.len() as int,
            ));
        }
    }
}

/// No publish without summary. Whenever the watcher hands a post to the
/// publisher, the event it answers is a summary that arrived with text, and
/// the post carries that text verbatim together with the candidate's link. A
/// failed or empty summary is never answered with a publish call.
pub proof fn lemma_publish_needs_summary(s: WatcherView, events: Seq<EventView>, k: int)
    requires
        s.wf(),
        0 <= k < events.len(),
        action_at(s, events, k) matches Some(ActionView::Publish { .. }),
    ensures
        state_at(s, events, k).phase == Phase::Summarizing,
        events[k] matches EventView::Summarized(Ok(text)) && text.len() > 0 && action_at(
            s,
            events,
            k,
        )->0->post.text == text,
        action_at(s, events, k)->0->post.link == state_at(s, events, k).current().link,
        state_at(s, events, k + 1).phase == Phase::Publishing,
        state_at(s, events, k + 1).outcomes == state_at(s, events, k).outcomes,
{
    lemma_run_wf(s, events, k);
    lemma_state_at_next(s, events, k);
}

/// No record without publish. Whenever the watcher asks for a dedup record,
/// the event it answers is the publisher's successful reference for the very
/// candidate whose key and title the record carries.
pub proof fn lemma_record_needs_publish(s: WatcherView, events: Seq<EventView>, k: int)
    requires
        s.wf(),
        0 <= k < events.len(),
        action_at(s, events, k) matches Some(ActionView::Record { .. }),
    ensures
        state_at(s, events, k).phase == Phase::Publishing,
        events[k] matches EventView::Published(Ok(_)),
        action_at(s, events, k)->0->Record_key == state_at(s, events, k).current().key,
        action_at(s, events, k)->0->Record_title == state_at(s, events, k).current().title,
        state_at(s, events, k + 1).phase == Phase::Recording,
        state_at(s, events, k + 1).outcomes == state_at(s, events, k).outcomes,
{
    lemma_run_wf(s, events, k);
    lemma_state_at_next(s, events, k);
}

/// Idempotence, step by step. A watcher that asks a ledger about a candidate
/// whose key the ledger holds is told so, and answers by dropping the
/// candidate: it settles it as already handled and turns to the next
/// candidate, the next page or the end.
pub proof fn lemma_recorded_key_is_skipped(s: WatcherView, ledger: LedgerView)
    requires
        s.wf(),
        s.phase == Phase::Filtering,
        ledger.has(s.current().key),
    ensures
        ledger.answer(s.pending()) == Some(EventView::Checked(true)),
        ledger.after(s.pending()) == ledger,
        s.step(EventView::Checked(true)) == s.settle(OutcomeView::AlreadyHandled),
        s.answer(EventView::Checked(true)) matches Some(action) && (action is Check || action is Fetch
            || action is Finish),
{
}

/// Idempotence. Once the ledger has answered that the key of candidate `i`
/// is present, nowhere in the cycle does the watcher ask for a summary, a
/// publish or a dedup record for that candidate.
pub proof fn lemma_present_key_has_no_effects(
    s: WatcherView,
    events: Seq<EventView>,
    k: int,
    m: int,
)
    requires
        s.wf(),
        0 <= k < events.len(),
        0 <= m < events.len(),
        state_at(s, events, k).phase == Phase::Filtering,
        events[k] == EventView::Checked(true),
    ensures
        !summarizes(s, events, m, state_at(s, events, k).outcomes.len()),
        !publishes(s, events, m, state_at(s, events, k).outcomes.len()),
        !records(s, events, m, state_at(s, events, k).outcomes.len()),
{
    let i = state_at(s, events, k).outcomes.len();
    lemma_run_wf(s, events, k);
    lemma_run_wf(s, events, m);
    lemma_state_at_next(s, events, k);
    lemma_state_at_next(s, events, m);
    if m > k {
        lemma_run_advances(s, events, k + 1, m);
    } else if m < k {
        lemma_run_advances(s, events, m + 1, k);
    }
}

/// Ordering. Of two publish calls in one cycle, the earlier is for the
/// candidate that arrived earlier: publish calls follow upstream order, and
/// no candidate is published twice.
pub proof fn lemma_publish_order(
    s: WatcherView,
    events: Seq<EventView>,
    k1: int,
    k2: int,
    i1: nat,
    i2: nat,
)
    requires
        s.wf(),
        0 <= k1 < k2 < events.len(),
        publishes(s, events, k1, i1),
        publishes(s, events, k2, i2),
    ensures
        i1 < i2,
        i2 < state_at(s, events, k2).candidates.len(),
        state_at(s, events, k2).candidates[i1 as int] == state_at(s, events, k1).candidates[i1 as int],
{
    lemma_publish_needs_summary(s, events, k1);
    lemma_publish_needs_summary(s, events, k2);
    lemma_run_wf(s, events, k1);
    lemma_run_wf(s, events, k2);
    lemma_run_advances(s, events, k1 + 1, k2);
    lemma_run_advances(s, events, k1, k2);
    let a = state_at(s, events, k1);
    let b = state_at(s, events, k2);
    assert(b.candidates.take(a.candidates.len() as int)[i1 as int] == b.candidates[i1 as int]);
}

/// Whether one of the first `n` events made the watcher hand the post for
/// candidate `i` to the publisher.
pub open spec fn published_by(s: WatcherView, events: Seq<EventView>, n: int, i: nat) -> bool
    decreases n,
{
    if n <= 0 {
        false
    } else {
        published_by(s, events, n - 1, i) || publishes(s, events, n - 1, i)
    }
}

/// Whether one of the first `n` events made the watcher ask for the dedup
/// record of candidate `i`.
pub open spec fn recorded_by(s: WatcherView, events: Seq<EventView>, n: int, i: nat) -> bool
    decreases n,
{
    if n <= 0 {
        false
    } else {
        recorded_by(s, events, n - 1, i) || records(s, events, n - 1, i)
    }
}

/// What the calls made so far say of candidate `i`, in a cycle run from its
/// start. For a candidate that is through, the outcome tells them: a publish
/// call was made iff the outcome is a failed publish or a post that went
/// out, and a dedup record was asked for iff the post went out. For the
/// candidate in work they are told by the phase, and for a candidate still
/// to come no call has been made.
pub open spec fn calls_match_state(
    s: WatcherView,
    events: Seq<EventView>,
    n: int,
    i: nat,
) -> bool {
    let t = state_at(s, events, n);
    let published = published_by(s, events, n, i);
    let recorded = recorded_by(s, events, n, i);
    if i < t.outcomes.len() {
        &&& published <==> t.outcomes[i as int].published() || t.outcomes[i as int] is PublishFailed
        &&& recorded <==> t.outcomes[i as int].published()
    } else if i == t.outcomes.len() {
        &&& published <==> t.phase == Phase::Publishing || t.phase == Phase::Recording
        &&& recorded <==> t.phase == Phase::Recording
    } else {
        !published && !recorded
    }
}

/// The report is truthful at every point of a cycle that runs from its
/// start.
pub proof fn lemma_calls_match_state(
    cursor: Option<Seq<char>>,
    events: Seq<EventView>,
    n: int,
    i: nat,
)
    requires
        0 <= n <= events.len(),
    ensures
        calls_match_state(WatcherView::start(cursor), events, n, i),
    decreases n,
{
    let s = WatcherView::start(cursor);
    if n == 0 {
        assert(events.take(0) =~= Seq::empty());
    } else {
        lemma_calls_match_state(cursor, events, n - 1, i);
        lemma_run_wf(s, events, n - 1);
        lemma_run_wf(s, events, n);
        lemma_state_at_next(s, events, n - 1);
        let before = state_at(s, events, n - 1);
        let after = state_at(s, events, n);
        lemma_step_advances(before, events[n - 1]);
        if i < before.outcomes.len() {
            assert(after.outcomes.take(before.outcomes.len() as int)[i as int]
                == after.outcomes[i as int]);
        }
    }
}

/// No effect without report. When a cycle that ran from its start has taken
/// candidate `i` through, the outcome in the report says what was done for
/// it: the publisher was called iff the outcome is a failed publish or a post
/// that went out, and a dedup record was asked for iff the post went out. A
/// candidate that was skipped or whose summary failed has caused neither.
pub proof fn lemma_report_is_truthful(cursor: Option<Seq<char>>, events: Seq<EventView>, i: nat)
    requires
        i < run(WatcherView::start(cursor), events).outcomes.len(),
    ensures
        published_by(WatcherView::start(cursor), events, events.len() as int, i) <==> run(
            WatcherView::start(cursor),
            events,
        ).outcomes[i as int].published() || run(
            WatcherView::start(cursor),
            events,
        ).outcomes[i as int] is PublishFailed,
        recorded_by(WatcherView::start(cursor), events, events.len() as int, i) <==> run(
            WatcherView::start(cursor),
            events,
        ).outcomes[i as int].published(),
{
    lemma_calls_match_state(cursor, events, events.len() as int, i);
    assert(events.take(events.len() as int) =~= events);
}

/// A call counted by [`published_by`] is a call that some event was answered
/// with, and the other way round.
pub proof fn lemma_published_by_some_event(
    s: WatcherView,
    events: Seq<EventView>,
    n: int,
    i: nat,
)
    ensures
        published_by(s, events, n, i) <==> exists|k: int|
            0 <= k < n && #[trigger] publishes(s, events, k, i),
    decreases n,
{
    if n > 0 {
        lemma_published_by_some_event(s, events, n - 1, i);
        if published_by(s, events, n - 1, i) {
            let k = choose|k: int| 0 <= k < n - 1 && #[trigger] publishes(s, events, k, i);
            assert(0 <= k < n && publishes(s, events, k, i));
        }
        if publishes(s, events, n - 1, i) {
            assert(0 <= n - 1 < n && publishes(s, events, n - 1, i));
        }
    }
}

/// A call counted by [`recorded_by`] is a call that some event was answered
/// with, and the other way round.
pub proof fn lemma_recorded_by_some_event(s: WatcherView, events: Seq<EventView>, n: int, i: nat)
    ensures
        recorded_by(s, events, n, i) <==> exists|k: int|
            0 <= k < n && #[trigger] records(s, events, k, i),
    decreases n,
{
    if n > 0 {
        lemma_recorded_by_some_event(s, events, n - 1, i);
        if recorded_by(s, events, n - 1, i) {
            let k = choose|k: int| 0 <= k < n - 1 && #[trigger] records(s, events, k, i);
            assert(0 <= k < n && records(s, events, k, i));
        }
        if records(s, events, n - 1, i) {
            assert(0 <= n - 1 < n && records(s, events, n - 1, i));
        }
    }
}

} // verus!
