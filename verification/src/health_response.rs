//! One entry of the media server's health report.

use vstd::prelude::*;

verus! {

/// A single health finding the server reports: a message, its severity
/// label, and a documentation link for the check that raised it.
#[derive(Debug, PartialEq, Eq)]
pub struct HealthResponse {
    pub message: String,
    pub log_level: String,
    pub wiki_url: String,
}

} // verus!
