//! The values that travel through the dedup-and-publish pipeline.
//!
//! A watcher never talks to the outside world itself. It hands out an
//! [`Action`] that names the one call to make, and is told the outcome of that
//! call as an [`Event`].

use crate::ledger::{KeyView, LedgerError, NaturalKey};
use crate::post_data::{PostRef, PostRefView};
use crate::summarizer::SummarizeError;
use crate::text::{clone_text, text_view};
use vstd::prelude::*;

verus! {

/// Why upstream data could not be read.
#[derive(Clone, Copy, Debug, PartialEq, Eq, Structural)]
pub enum UpstreamError {
    NotFound,
    RateLimited,
    TransportFailure,
}

/// Why a composed post could not be published.
#[derive(Clone, Copy, Debug, PartialEq, Eq, Structural)]
pub enum PublishError {
    TransportFailure,
}

/// One observed occurrence upstream, fresh in every poll cycle.
#[derive(Debug, PartialEq, Eq)]
pub struct Candidate {
    /// What identifies the event across cycles.
    pub key: NaturalKey,
    /// Title snapshot that goes into the dedup record.
    pub title: String,
    /// The text handed to the summarizer.
    pub context: String,
    /// Link to the source, carried into the post.
    pub link: Option<String>,
}

/// An event candidate as a mathematical value.
pub struct CandidateView {
    pub key: KeyView,
    pub title: Seq<char>,
    pub context: Seq<char>,
    pub link: Option<Seq<char>>,
}

impl View for Candidate {
    type V = CandidateView;

    open spec fn view(&self) -> CandidateView {
        CandidateView {
            key: self.key@,
            title: self.title@,
            context: self.context@,
            link: text_view(self.link),
        }
    }
}

impl Clone for Candidate {
    fn clone(&self) -> (r: Self)
        ensures
            r == *self,
    {
        Candidate {
            key: self.key.clone(),
            title: self.title.clone(),
            context: self.context.clone(),
            link: clone_text(&self.link),
        }
    }
}

impl Candidate {
    /// The natural key of the candidate.
    pub fn natural_key(&self) -> (key: NaturalKey)
        ensures
            key@ == self@.key,
    {
        self.key.clone()
    }
}

/// The candidates of a list as mathematical values.
pub open spec fn candidates_view(candidates: Seq<Candidate>) -> Seq<CandidateView> {
    Seq::new(candidates.len(), |i: int| candidates[i]@)
}

/// One page of an upstream listing. No cursor means there is no further page.
#[derive(Debug, PartialEq, Eq)]
pub struct Page {
    pub candidates: Vec<Candidate>,
    pub cursor: Option<String>,
}

/// A page as a mathematical value.
pub struct PageView {
    pub candidates: Seq<CandidateView>,
    pub cursor: Option<Seq<char>>,
}

impl View for Page {
    type V = PageView;

    open spec fn view(&self) -> PageView {
        PageView { candidates: candidates_view(self.candidates@), cursor: text_view(self.cursor) }
    }
}

/// Summarizer output plus the source link, ready for the publisher.
#[derive(Debug, PartialEq, Eq)]
pub struct ComposedPost {
    pub text: String,
    pub link: Option<String>,
}

/// A composed post as a mathematical value.
pub struct ComposedPostView {
    pub text: Seq<char>,
    pub link: Option<Seq<char>>,
}

impl View for ComposedPost {
    type V = ComposedPostView;

    open spec fn view(&self) -> ComposedPostView {
        ComposedPostView { text: self.text@, link: text_view(self.link) }
    }
}

impl Clone for ComposedPost {
    fn clone(&self) -> (r: Self)
        ensures
            r == *self,
    {
        ComposedPost { text: self.text.clone(), link: clone_text(&self.link) }
    }
}

/// The one call that the watcher asks its driver to make next.
#[derive(Debug, PartialEq, Eq)]
pub enum Action {
    /// Fetch the page of candidates behind `cursor`; no cursor asks for the
    /// first page.
    Fetch { cursor: Option<String> },
    /// Ask the ledger whether `key` is present.
    Check { key: NaturalKey },
    /// Ask the summarizer to turn `context` into prose.
    Summarize { context: String },
    /// Hand `post` to the publisher.
    Publish { post: ComposedPost },
    /// Insert a dedup record into the ledger.
    Record { key: NaturalKey, title: String },
    /// Nothing is left to do in this cycle.
    Finish,
}

/// An action as a mathematical value.
pub enum ActionView {
    Fetch { cursor: Option<Seq<char>> },
    Check { key: KeyView },
    Summarize { context: Seq<char> },
    Publish { post: ComposedPostView },
    Record { key: KeyView, title: Seq<char> },
    Finish,
}

impl View for Action {
    type V = ActionView;

    open spec fn view(&self) -> ActionView {
        match self {
            Action::Fetch { cursor } => ActionView::Fetch { cursor: text_view(*cursor) },
            Action::Check { key } => ActionView::Check { key: key@ },
            Action::Summarize { context } => ActionView::Summarize { context: context@ },
            Action::Publish { post } => ActionView::Publish { post: post@ },
            Action::Record { key, title } => ActionView::Record { key: key@, title: title@ },
            Action::Finish => ActionView::Finish,
        }
    }
}

/// The outcome of the call that the last action asked for.
#[derive(Debug, PartialEq, Eq)]
pub enum Event {
    /// The upstream listing answered.
    Fetched(Result<Page, UpstreamError>),
    /// The ledger said whether the key is present.
    Checked(bool),
    /// The summarizer answered.
    Summarized(Result<String, SummarizeError>),
    /// The publisher answered.
    Published(Result<PostRef, PublishError>),
    /// The ledger answered the insert.
    Recorded(Result<(), LedgerError>),
}

/// An event as a mathematical value.
pub enum EventView {
    Fetched(Result<PageView, UpstreamError>),
    Checked(bool),
    Summarized(Result<Seq<char>, SummarizeError>),
    Published(Result<PostRefView, PublishError>),
    Recorded(Result<(), LedgerError>),
}

impl View for Event {
    type V = EventView;

    open spec fn view(&self) -> EventView {
        match self {
            Event::Fetched(Ok(page)) => EventView::Fetched(Ok(page@)),
            Event::Fetched(Err(e)) => EventView::Fetched(Err(*e)),
            Event::Checked(present) => EventView::Checked(*present),
            Event::Summarized(Ok(text)) => EventView::Summarized(Ok(text@)),
            Event::Summarized(Err(e)) => EventView::Summarized(Err(*e)),
            Event::Published(Ok(post)) => EventView::Published(Ok(post@)),
            Event::Published(Err(e)) => EventView::Published(Err(*e)),
            Event::Recorded(r) => EventView::Recorded(*r),
        }
    }
}

/// What became of one candidate in this cycle.
#[derive(Debug, PartialEq, Eq)]
pub enum Outcome {
    /// The ledger already held its key: discarded without side effects.
    AlreadyHandled,
    /// No summary: nothing published or recorded, retried next cycle.
    SummaryFailed(SummarizeError),
    /// Not published: nothing recorded, retried next cycle.
    PublishFailed(PublishError),
    /// Published, and this cycle's insert created the dedup record.
    Recorded { post: PostRef },
    /// Published, and the insert found the key already recorded by an
    /// overlapping cycle: the post is an accepted duplicate.
    RecordedElsewhere { post: PostRef },
    /// Published, but the ledger rejected the insert: the post is live and
    /// unrecorded, which needs reconciliation.
    Unrecorded { post: PostRef },
}

/// An outcome as a mathematical value.
pub enum OutcomeView {
    AlreadyHandled,
    SummaryFailed(SummarizeError),
    PublishFailed(PublishError),
    Recorded { post: PostRefView },
    RecordedElsewhere { post: PostRefView },
    Unrecorded { post: PostRefView },
}

impl View for Outcome {
    type V = OutcomeView;

    open spec fn view(&self) -> OutcomeView {
        match self {
            Outcome::AlreadyHandled => OutcomeView::AlreadyHandled,
            Outcome::SummaryFailed(e) => OutcomeView::SummaryFailed(*e),
            Outcome::PublishFailed(e) => OutcomeView::PublishFailed(*e),
            Outcome::Recorded { post } => OutcomeView::Recorded { post: post@ },
            Outcome::RecordedElsewhere { post } => OutcomeView::RecordedElsewhere { post: post@ },
            Outcome::Unrecorded { post } => OutcomeView::Unrecorded { post: post@ },
        }
    }
}

impl Clone for Outcome {
    fn clone(&self) -> (r: Self)
        ensures
            r == *self,
    {
        match self {
            Outcome::AlreadyHandled => Outcome::AlreadyHandled,
            Outcome::SummaryFailed(e) => Outcome::SummaryFailed(*e),
            Outcome::PublishFailed(e) => Outcome::PublishFailed(*e),
            Outcome::Recorded { post } => Outcome::Recorded { post: post.clone() },
            Outcome::RecordedElsewhere { post } => Outcome::RecordedElsewhere { post: post.clone() },
            Outcome::Unrecorded { post } => Outcome::Unrecorded { post: post.clone() },
        }
    }
}

impl OutcomeView {
    /// Whether the candidate's post went out.
    pub open spec fn published(self) -> bool {
        self is Recorded || self is RecordedElsewhere || self is Unrecorded
    }
}

/// The outcomes of a list as mathematical values.
pub open spec fn outcomes_view(outcomes: Seq<Outcome>) -> Seq<OutcomeView> {
    Seq::new(outcomes.len(), |i: int| outcomes[i]@)
}

} // verus!
