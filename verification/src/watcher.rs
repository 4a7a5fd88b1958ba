//! The event watcher: one state machine per watched kind of event.
//!
//! Within a cycle the watcher takes candidates in the order in which the
//! upstream listing returned them, and takes each through the same line:
//! filter against the ledger, summarize, publish, record. It makes no call
//! itself: [`Watcher::step`] takes the outcome of the last call and answers
//! with the next call to make.

use crate::pipeline::{
    candidates_view, outcomes_view, Action, ActionView, Candidate, CandidateView, ComposedPost,
    ComposedPostView, Event, EventView, Outcome, OutcomeView, Page, UpstreamError,
};
use crate::ledger::{keys_view, KeyView, LedgerError, NaturalKey};
use crate::post_data::{PostRef, PostRefView};
use crate::summarizer::SummarizeError;
use crate::text::{clone_text, text_view};
use vstd::prelude::*;

verus! {

/// Where the watcher stands in its cycle.
#[derive(Clone, Copy, Debug, PartialEq, Eq, Structural)]
pub enum Phase {
    /// Waiting for a page of candidates.
    Fetching,
    /// Waiting for the ledger to say whether the current key is present.
    Filtering,
    /// Waiting for the summary of the current candidate.
    Summarizing,
    /// Waiting for the publisher.
    Publishing,
    /// Waiting for the ledger to answer the insert.
    Recording,
    /// The cycle is over.
    Done,
}

/// The driver reported an event that the watcher was not waiting for.
#[derive(Clone, Copy, Debug, PartialEq, Eq, Structural)]
pub enum StepError {
    UnexpectedEvent,
}

/// The watcher as a mathematical value.
pub struct WatcherView {
    pub phase: Phase,
    /// While fetching: the cursor of the page asked for. Otherwise: the
    /// cursor that came with the last page, absent if that was the final one.
    pub cursor: Option<Seq<char>>,
    /// Every candidate received in this cycle, in upstream order.
    pub candidates: Seq<CandidateView>,
    /// One outcome per candidate that is through, in the same order.
    pub outcomes: Seq<OutcomeView>,
    /// The post that is with the publisher.
    pub draft: Option<ComposedPostView>,
    /// The reference the publisher returned for the current candidate.
    pub published: Option<PostRefView>,
    /// Why the cycle ended early, if a fetch failed.
    pub halted: Option<UpstreamError>,
}

impl WatcherView {
    /// A candidate is being worked on.
    pub open spec fn busy(self) -> bool {
        self.phase == Phase::Filtering || self.phase == Phase::Summarizing || self.phase
            == Phase::Publishing || self.phase == Phase::Recording
    }

    /// The candidate being worked on.
    pub open spec fn current(self) -> CandidateView
        recommends
            self.busy(),
    {
        self.candidates[self.outcomes.len() as int]
    }

    /// The state is one that a cycle can reach.
    pub open spec fn wf(self) -> bool {
        &&& self.outcomes.len() <= self.candidates.len()
        &&& self.busy() <==> self.outcomes.len() < self.candidates.len()
        &&& self.draft is Some <==> self.phase == Phase::Publishing
        &&& self.published is Some <==> self.phase == Phase::Recording
        &&& self.halted is Some ==> self.phase == Phase::Done
        &&& self.phase == Phase::Done && self.halted is None ==> self.cursor is None
        &&& self.draft matches Some(post) ==> post.text.len() > 0 && post.link
            == self.current().link
    }

    /// The start of a cycle that begins with the page behind `cursor`.
    pub open spec fn start(cursor: Option<Seq<char>>) -> WatcherView {
        WatcherView {
            phase: Phase::Fetching,
            cursor,
            candidates: Seq::empty(),
            outcomes: Seq::empty(),
            draft: None,
            published: None,
            halted: None,
        }
    }

    /// The call that the watcher is waiting on.
    pub open spec fn pending(self) -> ActionView {
        match self.phase {
            Phase::Fetching => ActionView::Fetch { cursor: self.cursor },
            Phase::Filtering => ActionView::Check { key: self.current().key },
            Phase::Summarizing => ActionView::Summarize { context: self.current().context },
            Phase::Publishing => ActionView::Publish { post: self.draft->0 },
            Phase::Recording => ActionView::Record {
                key: self.current().key,
                title: self.current().title,
            },
            Phase::Done => ActionView::Finish,
        }
    }

    /// Whether `event` is the outcome of the call that the watcher is
    /// waiting on.
    pub open spec fn accepts(self, event: EventView) -> bool {
        match self.phase {
            Phase::Fetching => event is Fetched,
            Phase::Filtering => event is Checked,
            Phase::Summarizing => event is Summarized,
            Phase::Publishing => event is Published,
            Phase::Recording => event is Recorded,
            Phase::Done => false,
        }
    }

    /// Where to go once `done` of the candidates are through: on to the next
    /// candidate, else to the next page, else to the end.
    pub open spec fn phase_after(self, done: nat) -> Phase {
        if done < self.candidates.len() {
            Phase::Filtering
        } else if self.cursor is Some {
            Phase::Fetching
        } else {
            Phase::Done
        }
    }

    /// The current candidate is through with `outcome`.
    pub open spec fn settle(self, outcome: OutcomeView) -> WatcherView {
        WatcherView {
            phase: self.phase_after(self.outcomes.len() + 1),
            outcomes: self.outcomes.push(outcome),
            draft: None,
            published: None,
            ..self
        }
    }

    /// The state after an accepted event.
    pub open spec fn next(self, event: EventView) -> WatcherView {
        match event {
            EventView::Fetched(Ok(page)) => {
                let arrived = WatcherView {
                    candidates: self.candidates + page.candidates,
                    cursor: page.cursor,
                    ..self
                };
                WatcherView { phase: arrived.phase_after(self.outcomes.len()), ..arrived }
            },
            EventView::Fetched(Err(e)) => WatcherView {
                phase: Phase::Done,
                halted: Some(e),
                ..self
            },
            EventView::Checked(present) => if present {
                self.settle(OutcomeView::AlreadyHandled)
            } else {
                WatcherView { phase: Phase::Summarizing, ..self }
            },
            EventView::Summarized(Ok(text)) => if text.len() > 0 {
                WatcherView {
                    phase: Phase::Publishing,
                    draft: Some(ComposedPostView { text, link: self.current().link }),
                    ..self
                }
            } else {
                self.settle(OutcomeView::SummaryFailed(SummarizeError::EmptyResponse))
            },
            EventView::Summarized(Err(e)) => self.settle(OutcomeView::SummaryFailed(e)),
            EventView::Published(Ok(post)) => WatcherView {
                phase: Phase::Recording,
                draft: None,
                published: Some(post),
                ..self
            },
            EventView::Published(Err(e)) => self.settle(OutcomeView::PublishFailed(e)),
            EventView::Recorded(Ok(())) => self.settle(
                OutcomeView::Recorded { post: self.published->0 },
            ),
            EventView::Recorded(Err(LedgerError::AlreadyExists)) => self.settle(
                OutcomeView::RecordedElsewhere { post: self.published->0 },
            ),
            EventView::Recorded(Err(LedgerError::StorageFailure)) => self.settle(
                OutcomeView::Unrecorded { post: self.published->0 },
            ),
        }
    }

    /// The keys of those among the first `n` candidates whose post went out
    /// without a dedup record, in upstream order.
    pub open spec fn unrecorded(self, n: nat) -> Seq<KeyView>
        decreases n,
    {
        if n == 0 || n > self.outcomes.len() || n > self.candidates.len() {
            Seq::empty()
        } else if self.outcomes[n - 1] is Unrecorded {
            self.unrecorded((n - 1) as nat).push(self.candidates[n - 1].key)
        } else {
            self.unrecorded((n - 1) as nat)
        }
    }

    /// The state after any event: an event that the watcher was not waiting
    /// for changes nothing.
    pub open spec fn step(self, event: EventView) -> WatcherView {
        if self.accepts(event) {
            self.next(event)
        } else {
            self
        }
    }

    /// The answer to any event: the next call to make, or nothing for an
    /// event that the watcher was not waiting for.
    pub open spec fn answer(self, event: EventView) -> Option<ActionView> {
        if self.accepts(event) {
            Some(self.next(event).pending())
        } else {
            None
        }
    }
}

/// A step keeps the state well formed.
pub proof fn lemma_step_wf(s: WatcherView, event: EventView)
    requires
        s.wf(),
    ensures
        s.step(event).wf(),
{
}

/// The watcher of one kind of event, for one cycle.
pub struct Watcher {
    phase: Phase,
    cursor: Option<String>,
    candidates: Vec<Candidate>,
    outcomes: Vec<Outcome>,
    draft: Option<ComposedPost>,
    published: Option<PostRef>,
    halted: Option<UpstreamError>,
}

impl View for Watcher {
    type V = WatcherView;

    closed spec fn view(&self) -> WatcherView {
        WatcherView {
            phase: self.phase,
            cursor: text_view(self.cursor),
            candidates: candidates_view(self.candidates@),
            outcomes: outcomes_view(self.outcomes@),
            draft: match self.draft {
                Some(post) => Some(post@),
                None => None,
            },
            published: match self.published {
                Some(post) => Some(post@),
                None => None,
            },
            halted: self.halted,
        }
    }
}

impl Watcher {
    /// A watcher at the start of a cycle, about to ask for the first page.
    pub fn new() -> (watcher: Watcher)
        ensures
            watcher@ == WatcherView::start(None),
            watcher@.wf(),
    {
        Watcher::resume(None)
    }

    /// A watcher at the start of a cycle that picks the listing up at
    /// `cursor`.
    pub fn resume(cursor: Option<String>) -> (watcher: Watcher)
        ensures
            watcher@ == WatcherView::start(text_view(cursor)),
            watcher@.wf(),
    {
        let watcher = Watcher {
            phase: Phase::Fetching,
            cursor,
            candidates: Vec::new(),
            outcomes: Vec::new(),
            draft: None,
            published: None,
            halted: None,
        };
        assert(watcher@.candidates =~= Seq::empty());
        assert(watcher@.outcomes =~= Seq::empty());
        watcher
    }

    /// Where the watcher stands.
    pub fn phase(&self) -> (phase: Phase)
        ensures
            phase == self@.phase,
    {
        self.phase
    }

    /// Whether the cycle is over.
    pub fn is_done(&self) -> (done: bool)
        ensures
            done == (self@.phase == Phase::Done),
    {
        self.phase == Phase::Done
    }

    /// Why the cycle ended early, if a fetch failed.
    pub fn halted(&self) -> (e: Option<UpstreamError>)
        ensures
            e == self@.halted,
    {
        self.halted
    }

    /// The candidates received so far, in upstream order.
    pub fn candidates(&self) -> (candidates: &Vec<Candidate>)
        ensures
            candidates_view(candidates@) == self@.candidates,
    {
        &self.candidates
    }

    /// The outcomes so far: entry `i` is what became of candidate `i`.
    pub fn outcomes(&self) -> (outcomes: &Vec<Outcome>)
        ensures
            outcomes_view(outcomes@) == self@.outcomes,
    {
        &self.outcomes
    }

    /// The call that the watcher is waiting on. Asking again changes
    /// nothing, so a driver that lost track can pick up from here.
    pub fn pending(&self) -> (action: Action)
        requires
            self@.wf(),
        ensures
            action@ == self@.pending(),
    {
        match self.phase {
            Phase::Fetching => Action::Fetch { cursor: clone_text(&self.cursor) },
            Phase::Filtering => Action::Check { key: self.candidates[self.outcomes.len()].key.clone() },
            Phase::Summarizing => Action::Summarize {
                context: self.candidates[self.outcomes.len()].context.clone(),
            },
            Phase::Publishing => Action::Publish { post: self.draft.as_ref().unwrap().clone() },
            Phase::Recording => Action::Record {
                key: self.candidates[self.outcomes.len()].key.clone(),
                title: self.candidates[self.outcomes.len()].title.clone(),
            },
            Phase::Done => Action::Finish,
        }
    }

    /// The keys that need reconciliation: those of the candidates whose post
    /// is live but whose dedup record the ledger rejected, in upstream order.
    /// Until they are looked after, a later cycle will publish them again.
    pub fn needs_reconciliation(&self) -> (keys: Vec<NaturalKey>)
        requires
            self@.wf(),
        ensures
            keys_view(keys@) == self@.unrecorded(self@.outcomes.len()),
    {
        let mut keys: Vec<NaturalKey> = Vec::new();
        let mut i: usize = 0;
        assert(keys_view(keys@) =~= self@.unrecorded(0));
        while i < self.outcomes.len()
            invariant
                self@.wf(),
                i <= self.outcomes.len(),
                self.outcomes@.len() == self@.outcomes.len(),
                self.candidates@.len() == self@.candidates.len(),
                keys_view(keys@) == self@.unrecorded(i as nat),
            decreases self.outcomes.len() - i,
        {
            let ghost before = keys_view(keys@);
            match &self.outcomes[i] {
                Outcome::Unrecorded { .. } => {
                    keys.push(self.candidates[i].key.clone());
                    assert(keys_view(keys@) =~= before.push(self@.candidates[i as int].key));
                },
                _ => {},
            }
            i += 1;
        }
        keys
    }

    fn phase_after(&self, done: usize) -> (phase: Phase)
        ensures
            phase == self@.phase_after(done as nat),
    {
        if done < self.candidates.len() {
            Phase::Filtering
        } else if self.cursor.is_some() {
            Phase::Fetching
        } else {
            Phase::Done
        }
    }

    fn settle(&mut self, outcome: Outcome)
        requires
            old(self)@.wf(),
            old(self)@.busy(),
        ensures
            final(self)@ == old(self)@.settle(outcome@),
    {
        let ghost before = self@;
        let total = self.candidates.len();
        assert(self.outcomes@.len() < total) by {
            assert(before.outcomes.len() == self.outcomes@.len());
            assert(before.candidates.len() == self.candidates@.len());
        }
        let done = self.outcomes.len() + 1;
        self.phase = self.phase_after(done);
        self.outcomes.push(outcome);
        self.draft = None;
        self.published = None;
        assert(self@.outcomes =~= before.outcomes.push(outcome@));
    }

    /// Takes the outcome of the call that the watcher was waiting on and
    /// answers with the next call to make.
    ///
    /// An event that the watcher was not waiting for is refused and changes
    /// nothing; after the end of the cycle every event is.
    pub fn step(&mut self, event: Event) -> (r: Result<Action, StepError>)
        requires
            old(self)@.wf(),
        ensures
            final(self)@.wf(),
            final(self)@ == old(self)@.step(event@),
            match r {
                Ok(action) => old(self)@.answer(event@) == Some(action@),
                Err(e) => old(self)@.answer(event@) is None,
            },
    {
        let ghost before = self@;
        proof {
            lemma_step_wf(before, event@);
        }
        match event {
            Event::Fetched(fetched) => {
                if self.phase != Phase::Fetching {
                    return Err(StepError::UnexpectedEvent);
                }
                match fetched {
                    Ok(page) => {
                        let ghost arrived = page@;
                        let Page { candidates, cursor } = page;
                        let mut candidates = candidates;
                        self.candidates.append(&mut candidates);
                        self.cursor = cursor;
                        self.phase = self.phase_after(self.outcomes.len());
                        assert(self@.candidates =~= before.candidates + arrived.candidates);
                    },
                    Err(e) => {
                        self.phase = Phase::Done;
                        self.halted = Some(e);
                    },
                }
            },
            Event::Checked(present) => {
                if self.phase != Phase::Filtering {
                    return Err(StepError::UnexpectedEvent);
                }
                if present {
                    self.settle(Outcome::AlreadyHandled);
                } else {
                    self.phase = Phase::Summarizing;
                }
            },
            Event::Summarized(summarized) => {
                if self.phase != Phase::Summarizing {
                    return Err(StepError::UnexpectedEvent);
                }
                match summarized {
                    Ok(text) => {
                        if !text.as_str().is_empty() {
                            let link = clone_text(&self.candidates[self.outcomes.len()].link);
                            self.draft = Some(ComposedPost { text, link });
                            self.phase = Phase::Publishing;
                        } else {
                            self.settle(Outcome::SummaryFailed(SummarizeError::EmptyResponse));
                        }
                    },
                    Err(e) => {
                        self.settle(Outcome::SummaryFailed(e));
                    },
                }
            },
            Event::Published(published) => {
                if self.phase != Phase::Publishing {
                    return Err(StepError::UnexpectedEvent);
                }
                match published {
                    Ok(post) => {
                        self.draft = None;
                        self.published = Some(post);
                        self.phase = Phase::Recording;
                    },
                    Err(e) => {
                        self.settle(Outcome::PublishFailed(e));
                    },
                }
            },
            Event::Recorded(recorded) => {
                if self.phase != Phase::Recording {
                    return Err(StepError::UnexpectedEvent);
                }
                let post = self.published.as_ref().unwrap().clone();
                match recorded {
                    Ok(()) => {
                        self.settle(Outcome::Recorded { post });
                    },
                    Err(LedgerError::AlreadyExists) => {
                        self.settle(Outcome::RecordedElsewhere { post });
                    },
                    Err(LedgerError::StorageFailure) => {
                        self.settle(Outcome::Unrecorded { post });
                    },
                }
            },
        }
        Ok(self.pending())
    }
}

} // verus!
