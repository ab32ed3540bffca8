//! The named quality tier of a release.

use vstd::prelude::*;

verus! {

/// A quality tier as the media server defines it: an identifier, a display
/// name, the vertical resolution it stands for, and a modifier label.
#[derive(Debug, PartialEq, Eq)]
pub struct QualitySpec {
    pub id: u32,
    pub name: String,
    pub resolution: u16,
    pub modifier: String,
}

impl Clone for QualitySpec {
    fn clone(&self) -> (r: Self)
        ensures
            r == *self,
    {
        QualitySpec {
            id: self.id,
            name: self.name.clone(),
            resolution: self.resolution,
            modifier: self.modifier.clone(),
        }
    }
}

} // verus!
