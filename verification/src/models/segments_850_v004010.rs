use crate::models::segment_definition::ElementRequirement;
use vstd::prelude::*;

verus! {

/// One row of element metadata for a purchase-order segment position, for
/// callers that tabulate the catalog by position.
pub struct SegmentInformation {
    pub segment_name: String,
    pub segment_type: String,
    pub element_id: usize,
    pub position: usize,
    pub requirement: ElementRequirement,
    pub min_length: usize,
    pub max_length: usize,
    pub repeat: usize,
}

} // verus!
