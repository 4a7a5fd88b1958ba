//! One page of an author feed as the social platform returns it, and what
//! the pipeline reads from it.

use crate::ledger::{KeyView, NaturalKey};
use crate::pipeline::{candidates_view, Candidate, CandidateView, Page, PageView};
use crate::text::{clone_text, text_view};
use vstd::prelude::*;

verus! {

/// One page of a feed. No cursor means there is no further page.
#[derive(Debug, PartialEq, Eq)]
pub struct Feed {
    pub feed: Vec<FeedItem>,
    pub cursor: Option<String>,
}

/// One entry of a feed: a post, and why it is in the feed if it is not the
/// author's own.
#[derive(Debug, PartialEq, Eq)]
pub struct FeedItem {
    pub post: Post,
    pub reason: Option<Reason>,
}

/// Why a post appears in a feed, told apart by its type tag.
#[derive(Debug, PartialEq, Eq)]
pub enum Reason {
    /// Tag `app.bsky.feed.defs#reasonRepost`.
    ReasonRepost(ReasonRepostData),
    /// Any tag that is not known yet.
    Unknown,
}

/// Who reposted, and the repost record.
#[derive(Debug, PartialEq, Eq)]
pub struct ReasonRepostData {
    pub by: Author,
    pub uri: String,
    pub cid: String,
    pub indexed_at: String,
}

/// A post as shown in a feed.
#[derive(Debug, PartialEq, Eq)]
pub struct Post {
    pub uri: String,
    pub cid: String,
    pub author: Author,
    pub record: Record,
    /// The embed as rendered for display; `record.embed` is the stored form.
    pub embed: Option<EmbedView>,
    pub bookmark_count: u64,
    pub reply_count: u64,
    pub repost_count: u64,
    pub like_count: u64,
    pub quote_count: u64,
    pub indexed_at: String,
    pub labels: Vec<Label>,
}

/// The author of a post, or the account that reposted it.
#[derive(Debug, PartialEq, Eq)]
pub struct Author {
    pub did: String,
    pub handle: String,
    pub display_name: String,
    pub avatar: String,
    pub associated: Associated,
    pub labels: Vec<Label>,
    pub created_at: String,
}

/// Settings attached to an account.
#[derive(Debug, PartialEq, Eq)]
pub struct Associated {
    pub chat: Option<Chat>,
    pub activity_subscription: ActivitySubscription,
}

/// Who may start a chat with the account.
#[derive(Debug, PartialEq, Eq)]
pub struct Chat {
    pub allow_incoming: String,
}

/// Who may subscribe to the account's activity.
#[derive(Debug, PartialEq, Eq)]
pub struct ActivitySubscription {
    pub allow_subscriptions: String,
}

/// The stored record of a post.
#[derive(Debug, PartialEq, Eq)]
pub struct Record {
    /// The record's type tag.
    pub record_type: String,
    pub created_at: String,
    pub embed: Option<RecordEmbed>,
    pub facets: Option<Vec<Facet>>,
    pub langs: Option<Vec<String>>,
    pub text: String,
}

/// The embed of a stored record.
#[derive(Debug, PartialEq, Eq)]
pub struct RecordEmbed {
    /// The embed's type tag.
    pub embed_type: String,
    pub external: Option<RecordEmbedExternal>,
}

/// An external link embedded in a stored record.
#[derive(Debug, PartialEq, Eq)]
pub struct RecordEmbedExternal {
    pub description: String,
    pub title: String,
    pub uri: String,
    pub thumb: Option<ThumbObject>,
}

/// A stored thumbnail image.
#[derive(Debug, PartialEq, Eq)]
pub struct ThumbObject {
    /// The thumbnail's type tag.
    pub thumb_type: String,
    pub reference: Link,
    pub mime_type: String,
    pub size: u64,
}

/// The content id of a stored blob.
#[derive(Debug, PartialEq, Eq)]
pub struct Link {
    pub link: String,
}

/// The embed of a post as rendered for display.
#[derive(Debug, PartialEq, Eq)]
pub struct EmbedView {
    /// The embed's type tag.
    pub embed_type: String,
    pub external: Option<ViewEmbedExternal>,
}

/// An external link as rendered for display; the thumbnail is a URL.
#[derive(Debug, PartialEq, Eq)]
pub struct ViewEmbedExternal {
    pub uri: String,
    pub title: String,
    pub description: String,
    pub thumb: Option<String>,
}

/// A span of the post text together with what it stands for.
#[derive(Debug, PartialEq, Eq)]
pub struct Facet {
    pub features: Vec<Feature>,
    pub index: Index,
}

/// What a span of text stands for, told apart by its type tag.
#[derive(Debug, PartialEq, Eq)]
pub enum Feature {
    /// Tag `app.bsky.richtext.facet#tag`.
    Tag { tag: String },
    /// Tag `app.bsky.richtext.facet#link`.
    Link { uri: String },
    /// Tag `app.bsky.richtext.facet#mention`.
    Mention { did: String },
    /// Any tag that is not known yet.
    Unknown,
}

/// A span of the post text, in bytes.
#[derive(Debug, PartialEq, Eq)]
pub struct Index {
    pub byte_end: u64,
    pub byte_start: u64,
}

/// A moderation label. The platform sends none that the pipeline reads.
#[derive(Debug, PartialEq, Eq)]
pub struct Label {}

impl FeedItem {
    /// The candidate that a feed item stands for: identified by the content
    /// id of its post, titled and described by the post text, and linked to
    /// the post.
    pub open spec fn candidate_view(self) -> CandidateView {
        CandidateView {
            key: KeyView::Content { cid: self.post.cid@ },
            title: self.post.record.text@,
            context: self.post.record.text@,
            link: Some(self.post.uri@),
        }
    }

    /// Whether the post is in the feed because somebody reposted it.
    pub fn is_repost(&self) -> (repost: bool)
        ensures
            repost == (self.reason matches Some(Reason::ReasonRepost(_))),
    {
        match &self.reason {
            Some(Reason::ReasonRepost(_)) => true,
            _ => false,
        }
    }

    /// The natural key of the item: the content id of its post.
    pub fn natural_key(&self) -> (key: NaturalKey)
        ensures
            key@ == (KeyView::Content { cid: self.post.cid@ }),
    {
        NaturalKey::Content { cid: self.post.cid.clone() }
    }

    /// The event candidate that the item stands for.
    pub fn candidate(&self) -> (candidate: Candidate)
        ensures
            candidate@ == self.candidate_view(),
    {
        Candidate {
            key: self.natural_key(),
            title: self.post.record.text.clone(),
            context: self.post.record.text.clone(),
            link: Some(self.post.uri.clone()),
        }
    }
}

impl Feed {
    /// The feed as a page of candidates: one candidate per item, in the
    /// order of the feed, and the feed's cursor.
    pub open spec fn page_view(self) -> PageView {
        PageView {
            candidates: Seq::new(self.feed@.len(), |i: int| self.feed@[i].candidate_view()),
            cursor: text_view(self.cursor),
        }
    }

    /// Whether this is the last page of the listing.
    pub fn is_final_page(&self) -> (last: bool)
        ensures
            last == (self.cursor is None),
    {
        self.cursor.is_none()
    }

    /// The cursor that asks for the page after this one.
    pub fn next_cursor(&self) -> (cursor: Option<String>)
        ensures
            cursor == self.cursor,
    {
        clone_text(&self.cursor)
    }

    /// The candidates of this page, in upstream order, with the cursor.
    pub fn page(&self) -> (page: Page)
        ensures
            page@ == self.page_view(),
    {
        let mut candidates: Vec<Candidate> = Vec::new();
        let mut i: usize = 0;
        while i < self.feed.len()
            invariant
                i <= self.feed.len(),
                candidates@.len() == i,
                forall|j: int| 0 <= j < i ==> (#[trigger] candidates@[j])@ == self.feed@[j].candidate_view(),
            decreases self.feed.len() - i,
        {
            candidates.push(self.feed[i].candidate());
            i += 1;
        }
        let page = Page { candidates, cursor: clone_text(&self.cursor) };
        assert(page@.candidates =~= self.page_view().candidates);
        page
    }
}

} // verus!
