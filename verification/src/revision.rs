//! Revision counters of a release's quality description.

use vstd::prelude::*;

verus! {

/// Version counters the media server keeps for a release: the quality
/// revision and how many of those revisions are "real" (proper) releases.
#[derive(Debug, Clone, Copy, PartialEq, Eq, Structural)]
pub struct Revision {
    pub version: u32,
    pub real: u32,
}

} // verus!
