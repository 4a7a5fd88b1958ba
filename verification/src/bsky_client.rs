//! Addresses of the social platform's read API.
//!
//! The client knows the platform's base URLs and turns an endpoint path into
//! the absolute URL to request. Sending the request is the caller's business.

use crate::config::Config;
use crate::text::text_view;
use url::Url;
use vstd::prelude::*;
use vstd::string::StringExecFns;

verus! {

/// The serialization of the URL that `url::Url::join` resolves `path` to
/// against the URL that `url::Url::parse` reads from `base`; `None` where
/// `base` is no absolute URL or `path` cannot be resolved against it.
pub uninterp spec fn url_joined(base: Seq<char>, path: Seq<char>) -> Option<Seq<char>>;

/// Calls `url::Url::parse` on `base`, `url::Url::join` on the outcome with
/// `path`, and serializes the joined URL. Both steps depend on their
/// arguments alone, so the contract gives the outcome its name; a parse error
/// of either step becomes `None`.
#[verifier::external_body]
fn join_url(base: &str, path: &str) -> (r: Option<String>)
    ensures
        text_view(r) == url_joined(base@, path@),
{
    match Url::parse(base) {
        Ok(base) => match base.join(path) {
            Ok(url) => Some(url.to_string()),
            Err(_) => None,
        },
        Err(_) => None,
    }
}

/// The endpoint that returns a post together with its reply thread.
pub open spec fn post_thread_endpoint() -> Seq<char> {
    "app.bsky.feed.getPostThread?uri="@
}

/// Read access to the social platform.
pub struct BskyClient {
    pub_api_url: String,
    api_url: String,
}

impl BskyClient {
    /// Base URL of the public, read-only API.
    pub closed spec fn pub_api_url(&self) -> Seq<char> {
        self.pub_api_url@
    }

    /// Base URL of the authenticated API.
    pub closed spec fn api_url(&self) -> Seq<char> {
        self.api_url@
    }

    /// A client for the platform that `config` names.
    pub fn new(config: &Config) -> (client: BskyClient)
        ensures
            client.pub_api_url() == config.bsky_pub_api_url@,
            client.api_url() == config.bsky_api_url@,
    {
        BskyClient {
            pub_api_url: config.bsky_pub_api_url.clone(),
            api_url: config.bsky_api_url.clone(),
        }
    }

    /// Base URL of the public, read-only API.
    pub fn pub_base(&self) -> (base: &str)
        ensures
            base@ == self.pub_api_url(),
    {
        self.pub_api_url.as_str()
    }

    /// Base URL of the authenticated API.
    pub fn api_base(&self) -> (base: &str)
        ensures
            base@ == self.api_url(),
    {
        self.api_url.as_str()
    }

    /// The absolute URL of `path` on the public API.
    ///
    /// The base URL must be absolute and `path` resolvable against it;
    /// [`BskyClient::try_get_url`] asks for neither.
    pub fn get_url(&self, path: &str) -> (url: String)
        requires
            url_joined(self.pub_api_url(), path@) is Some,
        ensures
            Some(url@) == url_joined(self.pub_api_url(), path@),
    {
        join_url(self.pub_api_url.as_str(), path).unwrap()
    }

    /// The absolute URL of `path` on the public API, or `None` where the base
    /// URL is not absolute or `path` cannot be resolved against it.
    pub fn try_get_url(&self, path: &str) -> (r: Option<String>)
        ensures
            text_view(r) == url_joined(self.pub_api_url(), path@),
    {
        match join_url(self.pub_api_url.as_str(), path) {
            Some(_) => Some(self.get_url(path)),
            None => None,
        }
    }

    /// The path, relative to the API base, that asks for the thread of the
    /// post at `post_uri`: the endpoint followed by the URI as given.
    pub fn post_thread_path(post_uri: &str) -> (path: String)
        ensures
            path@ == post_thread_endpoint() + post_uri@,
    {
        String::from_str("app.bsky.feed.getPostThread?uri=").concat(post_uri)
    }

    /// The absolute URL that asks the public API for the thread of the post
    /// at `post_uri`, or `None` where it cannot be formed.
    pub fn post_thread_url(&self, post_uri: &str) -> (r: Option<String>)
        ensures
            text_view(r) == url_joined(self.pub_api_url(), post_thread_endpoint() + post_uri@),
    {
        let path = Self::post_thread_path(post_uri);
        self.try_get_url(path.as_str())
    }
}

} // verus!
