pub mod interchange;
pub mod loops;
pub mod schema_engine;
pub mod segment;
pub mod segment_definition;
pub mod segment_definition_simple;
pub mod segment_validator;
pub mod segments_850_v004010;
pub mod structured_segments;
pub mod transaction;
pub mod validated_element;
pub mod version;

pub use interchange::FunctionalGroup;
pub use interchange::InterchangeControl;
pub use segment::Segment;
pub use transaction::Transaction;
pub use transaction::TransactionType;
pub use version::X12Version;
