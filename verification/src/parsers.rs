pub mod builder;
pub mod schema_validating_parser;
pub mod validating_parser;
pub mod x12;

use crate::error::EdiError;
use crate::models::interchange::InterchangeControl;
use vstd::prelude::*;

pub use builder::X12ParserBuilder;
pub use schema_validating_parser::SchemaValidatingParser;
pub use validating_parser::ValidatingSegmentParser;
pub use x12::X12Parser;

verus! {

/// A parser that turns raw document text into the control hierarchy and can
/// check an assembled hierarchy's envelope sanity.  The exact behaviour is
/// stated on the implementing types.
pub trait EdiParser {
    fn parse(&self, input: &str) -> Result<InterchangeControl, EdiError>;

    fn validate(&self, interchange: &InterchangeControl) -> Result<(), EdiError>;
}

} // verus!
