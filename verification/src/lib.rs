//! Watches a repository host and a social feed for new events and
//! republishes each of them at most once.
//!
//! The heart of the crate is the dedup-and-publish pipeline. A
//! [`watcher::Watcher`] takes the candidates of a cycle through filter,
//! summary, publish and record, one call at a time; the [`ledger`] says which
//! events have been handled, under a uniqueness constraint that holds across
//! overlapping cycles. [`watcher_laws`] and [`ledger_laws`] state what is
//! true of every cycle and of every sequence of inserts.
//!
//! Around it stand the payloads that the platforms send ([`feed_data`],
//! [`post_data`]), the reading of a language-model completion
//! ([`summarizer`]) and the addresses of the social platform's API
//! ([`bsky_client`]).

pub mod bsky_client;
pub mod config;
pub mod feed_data;
pub mod ledger;
pub mod ledger_laws;
pub mod pipeline;
pub mod post_data;
pub mod summarizer;
pub mod text;
pub mod watcher;
pub mod watcher_laws;
