//! A post with its reply thread as the social platform returns it, and what
//! the pipeline reads from it.
//!
//! A thread is a tree: a post owns the ordered list of its replies, each of
//! the same shape, to any depth.

use vstd::prelude::*;
use vstd::string::StringExecFns;

verus! {

/// The answer to a thread request.
#[derive(Debug, PartialEq, Eq)]
pub struct ThreadPost {
    pub thread: ThreadViewPost,
}

/// A post and the thread of replies below it.
#[derive(Debug, PartialEq, Eq)]
pub struct ThreadViewPost {
    /// The node's type tag.
    pub bsky_type: String,
    pub post: PostView,
    /// The replies in the platform's order; absent and empty both mean none.
    pub replies: Option<Vec<ThreadViewPost>>,
    pub thread_context: Option<ThreadContext>,
}

/// A post as shown in a thread.
#[derive(Debug, PartialEq, Eq)]
pub struct PostView {
    pub uri: String,
    pub cid: String,
    pub author: Author,
    pub record: Record,
    pub embed: Option<EmbedView>,
    pub bookmark_count: u64,
    pub reply_count: u64,
    pub repost_count: u64,
    pub like_count: u64,
    pub quote_count: u64,
    pub indexed_at: String,
    pub labels: Vec<Label>,
}

/// The author of a post in a thread.
#[derive(Debug, PartialEq, Eq)]
pub struct Author {
    pub did: String,
    pub handle: String,
    pub display_name: Option<String>,
    pub avatar: Option<String>,
    pub associated: Associated,
    pub labels: Vec<Label>,
    pub created_at: String,
}

/// Settings attached to an account.
#[derive(Debug, PartialEq, Eq)]
pub struct Associated {
    pub activity_subscription: ActivitySubscription,
}

/// Who may subscribe to the account's activity.
#[derive(Debug, PartialEq, Eq)]
pub struct ActivitySubscription {
    pub allow_subscriptions: String,
}

/// The stored record of a post.
#[derive(Debug, PartialEq, Eq)]
pub struct Record {
    /// The record's type tag.
    pub bsky_type: String,
    pub created_at: String,
    pub text: String,
    pub langs: Vec<String>,
    pub facets: Option<Vec<Facet>>,
    pub reply: Option<ReplyRef>,
    pub embed: Option<RecordEmbed>,
}

/// A span of the post text together with what it stands for.
#[derive(Debug, PartialEq, Eq)]
pub struct Facet {
    pub index: ByteSlice,
    pub features: Vec<Feature>,
}

/// A span of the post text, in bytes.
#[derive(Debug, PartialEq, Eq)]
pub struct ByteSlice {
    pub byte_start: u64,
    pub byte_end: u64,
}

/// What a span of text stands for, told apart by its type tag.
#[derive(Debug, PartialEq, Eq)]
pub enum Feature {
    /// Tag `app.bsky.richtext.facet#tag`.
    Tag { tag: String },
    /// Tag `app.bsky.richtext.facet#mention`.
    Mention { did: String },
    /// Tag `app.bsky.richtext.facet#link`.
    Link { uri: String },
    /// Any tag that is not known yet.
    Unknown,
}

/// Where a reply hangs: the root of its thread and its direct parent.
#[derive(Debug, PartialEq, Eq)]
pub struct ReplyRef {
    pub root: PostRef,
    pub parent: PostRef,
}

/// A reference to a post: its content id and its URI.
#[derive(Debug, PartialEq, Eq)]
pub struct PostRef {
    pub cid: String,
    pub uri: String,
}

/// A post reference as a mathematical value.
pub struct PostRefView {
    pub cid: Seq<char>,
    pub uri: Seq<char>,
}

impl View for PostRef {
    type V = PostRefView;

    open spec fn view(&self) -> PostRefView {
        PostRefView { cid: self.cid@, uri: self.uri@ }
    }
}

impl Clone for PostRef {
    fn clone(&self) -> (r: Self)
        ensures
            r == *self,
    {
        PostRef { cid: self.cid.clone(), uri: self.uri.clone() }
    }
}

/// The embed of a stored record, told apart by its type tag.
#[derive(Debug, PartialEq, Eq)]
pub enum RecordEmbed {
    /// Tag `app.bsky.embed.external`.
    External { external: ExternalRecord },
    /// Any tag that is not known yet.
    Unknown,
}

/// An external link embedded in a stored record.
#[derive(Debug, PartialEq, Eq)]
pub struct ExternalRecord {
    pub description: String,
    pub thumb: Thumb,
    pub title: String,
    pub uri: String,
}

/// A stored thumbnail image.
#[derive(Debug, PartialEq, Eq)]
pub struct Thumb {
    /// The thumbnail's type tag.
    pub bsky_type: String,
    pub mime_type: String,
    pub reference: LinkRef,
    pub size: u64,
}

/// The content id of a stored blob.
#[derive(Debug, PartialEq, Eq)]
pub struct LinkRef {
    pub link: String,
}

/// The embed of a post as rendered for display, told apart by its type tag.
#[derive(Debug, PartialEq, Eq)]
pub enum EmbedView {
    /// Tag `app.bsky.embed.external#view`.
    ExternalView { external: ExternalViewData },
    /// Any tag that is not known yet.
    Unknown,
}

/// An external link as rendered for display; the thumbnail is a URL.
#[derive(Debug, PartialEq, Eq)]
pub struct ExternalViewData {
    pub uri: String,
    pub title: String,
    pub description: String,
    pub thumb: String,
}

/// A moderation label. The platform sends none that the pipeline reads.
#[derive(Debug, PartialEq, Eq)]
pub struct Label {}

/// Context of a thread node. The platform sends nothing in it that the
/// pipeline reads.
#[derive(Debug, PartialEq, Eq)]
pub struct ThreadContext {}

impl PostView {
    /// The reference to this post.
    pub fn post_ref(&self) -> (r: PostRef)
        ensures
            r@ == (PostRefView { cid: self.cid@, uri: self.uri@ }),
    {
        PostRef { cid: self.cid.clone(), uri: self.uri.clone() }
    }
}

/// The post texts of a thread in depth-first order: the post's own text,
/// then the texts of each reply's thread, reply by reply in their order.
pub open spec fn thread_texts(thread: ThreadViewPost) -> Seq<Seq<char>>
    decreases thread, 0nat,
{
    seq![thread.post.record.text@] + match thread.replies {
        Some(replies) => replies_texts(replies@, replies@.len()),
        None => Seq::empty(),
    }
}

/// The post texts of the threads of the first `n` replies, in depth-first
/// order.
pub open spec fn replies_texts(replies: Seq<ThreadViewPost>, n: nat) -> Seq<Seq<char>>
    decreases replies, n,
{
    if n == 0 || n > replies.len() {
        Seq::empty()
    } else {
        replies_texts(replies, (n - 1) as nat) + thread_texts(replies[n - 1])
    }
}

/// The number of posts in a thread: the post itself and every post below it.
pub open spec fn thread_size(thread: ThreadViewPost) -> nat {
    thread_texts(thread).len()
}

/// The texts as mathematical strings.
pub open spec fn texts_view(texts: Seq<String>) -> Seq<Seq<char>> {
    Seq::new(texts.len(), |i: int| texts[i]@)
}

/// The lines joined into one text, a line feed after each.
pub open spec fn joined_lines(lines: Seq<Seq<char>>) -> Seq<char>
    decreases lines.len(),
{
    if lines.len() == 0 {
        Seq::empty()
    } else {
        joined_lines(lines.drop_last()) + lines.last() + seq!['\n']
    }
}

/// Joins the lines into one text, a line feed after each.
pub fn join_lines(lines: &Vec<String>) -> (text: String)
    ensures
        text@ == joined_lines(texts_view(lines@)),
{
    let mut text = String::new();
    let mut i: usize = 0;
    proof {
        reveal_strlit("\n");
        assert(texts_view(lines@).take(0) =~= Seq::empty());
    }
    while i < lines.len()
        invariant
            i <= lines.len(),
            "\n"@ == seq!['\n'],
            text@ == joined_lines(texts_view(lines@).take(i as int)),
        decreases lines.len() - i,
    {
        proof {
            let all = texts_view(lines@);
            assert(all.take(i + 1).drop_last() =~= all.take(i as int));
            assert(all.take(i + 1).last() == lines@[i as int]@);
        }
        text.append(lines[i].as_str());
        text.append("\n");
        i += 1;
    }
    assert(texts_view(lines@).take(lines@.len() as int) =~= texts_view(lines@));
    text
}

impl ThreadViewPost {
    /// The post texts of the thread in depth-first order, each post before
    /// its replies and the replies in the platform's order.
    pub fn texts(&self) -> (texts: Vec<String>)
        ensures
            texts_view(texts@) == thread_texts(*self),
        decreases *self,
    {
        let mut texts: Vec<String> = Vec::new();
        texts.push(self.post.record.text.clone());
        assert(texts_view(texts@) =~= seq![self.post.record.text@]);
        match &self.replies {
            Some(replies) => {
                let mut i: usize = 0;
                while i < replies.len()
                    invariant
                        i <= replies.len(),
                        self.replies == Some(*replies),
                        texts_view(texts@) == seq![self.post.record.text@] + replies_texts(
                            replies@,
                            i as nat,
                        ),
                    decreases replies.len() - i,
                {
                    let ghost before = texts_view(texts@);
                    proof {
                        let below = self.replies->0;
                        assert(decreases_to!(*self => self.replies));
                        assert(decreases_to!(self.replies => below));
                        assert(decreases_to!(below => below@));
                        assert(decreases_to!(below@ => below@[i as int]));
                        assert(below@[i as int] == replies@[i as int]);
                    }
                    let mut below = replies[i].texts();
                    let ghost added = texts_view(below@);
                    texts.append(&mut below);
                    assert(texts_view(texts@) =~= before + added);
                    assert(before + added =~= seq![self.post.record.text@] + replies_texts(
                        replies@,
                        (i + 1) as nat,
                    ));
                    i += 1;
                }
            },
            None => {
                assert(texts_view(texts@) =~= thread_texts(*self));
            },
        }
        texts
    }

    /// The number of posts in the thread.
    pub fn post_count(&self) -> (n: usize)
        ensures
            n == thread_size(*self),
    {
        self.texts().len()
    }

    /// The thread as one text for the summarizer: the post texts in
    /// depth-first order, one per line.
    pub fn context(&self) -> (text: String)
        ensures
            text@ == joined_lines(thread_texts(*self)),
    {
        let texts = self.texts();
        join_lines(&texts)
    }
}

impl ThreadPost {
    /// The reference to the post at the root of the thread.
    pub fn root_ref(&self) -> (r: PostRef)
        ensures
            r@ == (PostRefView { cid: self.thread.post.cid@, uri: self.thread.post.uri@ }),
    {
        self.thread.post.post_ref()
    }

    /// The whole thread as one text for the summarizer.
    pub fn context(&self) -> (text: String)
        ensures
            text@ == joined_lines(thread_texts(self.thread)),
    {
        self.thread.context()
    }
}

} // verus!
