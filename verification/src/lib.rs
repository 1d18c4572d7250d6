//! Parsing and schema-driven validation for X12 EDI interchanges.
//!
//! A document is split into segments and elements using separators discovered
//! from the interchange header, folded into the interchange / functional group /
//! transaction hierarchy, and validated against a version-indexed catalog of
//! segment and element definitions, with trading-partner customizations applied
//! as an overlay.

pub mod error;
pub mod models;
pub mod parsers;
pub mod segments;
pub mod transactions;
pub mod utils;
pub mod validation;

pub use error::EdiError;
pub use models::loops::LineItemLoop;
pub use models::loops::PartyLoop;
pub use models::loops::PurchaseOrder850;
pub use parsers::EdiParser;
pub use parsers::SchemaValidatingParser;
pub use parsers::ValidatingSegmentParser;
pub use parsers::X12Parser;
pub use parsers::X12ParserBuilder;
pub use models::interchange::FunctionalGroup;
pub use models::interchange::InterchangeControl;
pub use models::segment::Segment;
pub use models::transaction::Transaction;
pub use models::transaction::TransactionType;
pub use models::version::X12Version;
