//! A root folder the media server stores works under.

use vstd::prelude::*;

verus! {

/// One configured root folder of the server: its path and the disk space
/// the server sees there.
#[derive(Debug, PartialEq, Eq)]
pub struct RootFolderResponse {
    pub free_space: u64,
    pub id: u32,
    pub path: String,
    pub total_space: u64,
}

} // verus!
