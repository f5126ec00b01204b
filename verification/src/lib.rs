//! Core of a one-shot feed generator for a gemini site: category-aware
//! article discovery, per-article metadata inference (title, canonical URL,
//! update timestamp), ranking of the most recent articles, and assembly of
//! the feed document. File-system walking, argument handling and the final
//! serialization live outside this crate; everything here is verified.

pub mod category;
pub mod discover;
pub mod feed;
pub mod paths;
pub mod rank;
pub mod text;
pub mod timestamp;
pub mod title;
pub mod urls;

use vstd::prelude::*;

verus! {

/// A condition that aborts the run: the pipeline is fail-fast and never
/// writes a partial feed.
#[derive(PartialEq, Eq, Structural, Copy, Clone, Debug)]
pub enum FeedError {
    /// A name carries a date stamp that names no real calendar date.
    InvalidDate,
    /// The base URL would not absorb an article's relative path.
    UrlNotResolvable,
}

} // verus!
