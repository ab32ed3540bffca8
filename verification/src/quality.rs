//! The full quality description attached to a release.

use vstd::prelude::*;

use crate::quality_spec::QualitySpec;
use crate::revision::Revision;

verus! {

/// Quality of a stored release: the tier it was graded at, any custom
/// format labels that apply, and the revision counters.
#[derive(Debug, PartialEq, Eq)]
pub struct Quality {
    pub quality: QualitySpec,
    pub custom_formats: Option<Vec<String>>,
    pub revision: Revision,
}

} // verus!
