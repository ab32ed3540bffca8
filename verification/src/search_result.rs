//! A candidate returned by the media server's title search.

use vstd::prelude::*;

use crate::alternative_title::AlternativeTitle;
use crate::image::Image;

verus! {

/// One search result: a work the upstream metadata provider knows, together
/// with the server's own bookkeeping about it.
///
/// `has_file` reports whether the server already holds a downloaded file
/// for the work, and `monitored` whether the server watches it for new
/// releases; `already_tracked` combines the two.
#[derive(Debug, PartialEq, Eq)]
pub struct SearchResult {
    pub title: String,
    pub secondary_year_source_id: u32,
    pub sort_title: String,
    pub alternate_titles: Vec<AlternativeTitle>,
    pub status: String,
    pub overview: String,
    pub in_cinemas: Option<String>,
    pub year: u32,
    pub monitored: bool,
    pub has_file: bool,
    pub minimum_availability: String,
    pub is_available: bool,
    pub folder_name: String,
    pub runtime: u32,
    pub tmdb_id: u32,
    pub title_slug: String,
    pub genres: Vec<String>,
    pub tags: Vec<String>,
    pub added: String,
    pub quality_profile_id: u32,
    pub images: Vec<Image>,
}

impl SearchResult {
    /// The server already tracks this work: it holds a file for it or it
    /// monitors it. This one definition of "already tracked" is used
    /// everywhere a decision depends on it.
    pub open spec fn is_already_tracked(self) -> bool {
        self.has_file || self.monitored
    }

    /// Whether the server already tracks this work (holds a file for it or
    /// monitors it).
    pub fn already_tracked(&self) -> (r: bool)
        ensures
            r == self.is_already_tracked(),
    {
        self.has_file || self.monitored
    }
}

} // verus!
