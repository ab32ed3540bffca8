//! A cover image attached to a work known to the media server.

use vstd::prelude::*;

verus! {

/// One image of a work: what kind of artwork it is (poster, banner, ...)
/// and where the server serves it from.
#[derive(Debug, PartialEq, Eq)]
pub struct Image {
    pub cover_type: String,
    pub url: String,
}

impl Clone for Image {
    fn clone(&self) -> (r: Self)
        ensures
            r == *self,
    {
        Image { cover_type: self.cover_type.clone(), url: self.url.clone() }
    }
}

} // verus!
