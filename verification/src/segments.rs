pub mod common;
pub mod control;
pub mod purchase_order;

use crate::error::EdiError;
use crate::models::segment::Segment;
use vstd::prelude::*;

pub use common::DtmSegment;
pub use common::N1Segment;
pub use common::RefSegment;
pub use control::GsSegment;
pub use control::IsaSegment;
pub use control::StSegment;
pub use purchase_order::BegSegment;
pub use purchase_order::CttSegment;
pub use purchase_order::Po1Segment;

verus! {

/// A control or business segment with a structured field-level form.  The
/// exact behaviour is stated on the implementing types.
pub trait SegmentParser {
    type Output;

    fn parse_segment(segment: &Segment) -> Result<Self::Output, EdiError>;

    fn segment_id() -> &'static str;

    fn validate(&self) -> Result<(), EdiError>;
}

} // verus!
