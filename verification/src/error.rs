use vstd::prelude::*;

verus! {

/// Errors produced when a document cannot be structurally interpreted at all,
/// or when a validation step is asked to fail hard.
#[derive(Debug, PartialEq, Eq)]
pub enum EdiError {
    InvalidSegmentFormat(String),
    MissingRequiredSegment(String),
    InvalidControlStructure,
    ParseError(usize, String),
    UnsupportedStandard(String),
    UnsupportedTransactionType(String),
    ValidationError(String),
}

impl EdiError {
    /// A human-readable description of the error; the variant's payload is
    /// appended to a fixed prefix.
    pub fn message(&self) -> (r: String)
        ensures
            r@ == self.spec_message(),
    {
        match self {
            EdiError::InvalidSegmentFormat(s) => {
                String::from_str("Invalid segment format: ").concat(s.as_str())
            },
            EdiError::MissingRequiredSegment(s) => {
                String::from_str("Missing required segment: ").concat(s.as_str())
            },
            EdiError::InvalidControlStructure => String::from_str("Invalid control structure"),
            EdiError::ParseError(_, s) => String::from_str("Parse error: ").concat(s.as_str()),
            EdiError::UnsupportedStandard(s) => {
                String::from_str("Unsupported EDI standard: ").concat(s.as_str())
            },
            EdiError::UnsupportedTransactionType(s) => {
                String::from_str("Unsupported transaction type: ").concat(s.as_str())
            },
            EdiError::ValidationError(s) => {
                String::from_str("Validation error: ").concat(s.as_str())
            },
        }
    }

    pub open spec fn spec_message(&self) -> Seq<char> {
        match self {
            EdiError::InvalidSegmentFormat(s) => "Invalid segment format: "@ + s@,
            EdiError::MissingRequiredSegment(s) => "Missing required segment: "@ + s@,
            EdiError::InvalidControlStructure => "Invalid control structure"@,
            EdiError::ParseError(_, s) => "Parse error: "@ + s@,
            EdiError::UnsupportedStandard(s) => "Unsupported EDI standard: "@ + s@,
            EdiError::UnsupportedTransactionType(s) => "Unsupported transaction type: "@ + s@,
            EdiError::ValidationError(s) => "Validation error: "@ + s@,
        }
    }
}

} // verus!
