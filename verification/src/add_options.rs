//! Options that accompany an add request.

use vstd::prelude::*;

verus! {

/// Instructions the media server honours when a work is added: whether to
/// search for a release right away, and which monitoring mode to use.
#[derive(Debug, PartialEq, Eq)]
pub struct AddOptions {
    pub search_for_movie: bool,
    pub monitor: String,
}

impl Clone for AddOptions {
    fn clone(&self) -> (r: Self)
        ensures
            r == *self,
    {
        AddOptions { search_for_movie: self.search_for_movie, monitor: self.monitor.clone() }
    }
}

} // verus!
