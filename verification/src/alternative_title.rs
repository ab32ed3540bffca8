//! An alternative title under which a work is also known.

use vstd::prelude::*;

verus! {

/// One alternative title of a work, as the upstream metadata provider
/// records it. The match selector treats it as equivalent to the work's
/// canonical title.
#[derive(Debug, PartialEq, Eq)]
pub struct AlternativeTitle {
    pub title: String,
}

impl Clone for AlternativeTitle {
    fn clone(&self) -> (r: Self)
        ensures
            r == *self,
    {
        AlternativeTitle { title: self.title.clone() }
    }
}

} // verus!
