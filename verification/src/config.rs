//! Explicit configuration, built once at process start and handed by
//! reference to every component that needs it.

use vstd::prelude::*;

verus! {

/// Where the collaborators live and how to authenticate with them.
pub struct Config {
    /// Base URL of the social platform's public, read-only API.
    pub bsky_pub_api_url: String,
    /// Base URL of the social platform's authenticated API.
    pub bsky_api_url: String,
    /// Credential for the language-model backend.
    pub deepseek_api_key: String,
}

impl Config {
    /// A configuration holding exactly the three given values.
    pub fn new(bsky_pub_api_url: String, bsky_api_url: String, deepseek_api_key: String) -> (c:
        Config)
        ensures
            c.bsky_pub_api_url == bsky_pub_api_url,
            c.bsky_api_url == bsky_api_url,
            c.deepseek_api_key == deepseek_api_key,
    {
        Config { bsky_pub_api_url, bsky_api_url, deepseek_api_key }
    }
}

} // verus!
