pub mod rules;
pub mod schema;
pub mod validator;

use vstd::prelude::*;

pub use rules::StandardRules;
pub use schema::DataType;
pub use schema::EdiSchema;
pub use schema::ElementUsage;
pub use schema::LoopDefinition;
pub use schema::SegmentUsage;
pub use validator::EdiValidator;
pub use validator::ElementBuilder;
pub use validator::SchemaBuilder;
pub use validator::SegmentBuilder;

verus! {

/// Accumulated validation outcome: validity plus every error and warning
/// found, in the order they were found.
#[derive(Debug)]
pub struct ValidationResult {
    pub is_valid: bool,
    pub errors: Vec<ValidationError>,
    pub warnings: Vec<ValidationWarning>,
}

/// One error, naming the segment it concerns.
#[derive(Debug)]
pub struct ValidationError {
    pub segment_id: String,
    pub element_position: Option<usize>,
    pub error_type: ValidationErrorType,
    pub message: String,
}

/// One warning, naming the segment it concerns.
#[derive(Debug)]
pub struct ValidationWarning {
    pub segment_id: String,
    pub element_position: Option<usize>,
    pub message: String,
}

#[derive(Debug, Clone, Copy, PartialEq, Eq, Structural)]
pub enum ValidationErrorType {
    MissingRequiredSegment,
    MissingRequiredElement,
    ElementTooLong,
    ElementTooShort,
    InvalidElementFormat,
    TooManyRepetitions,
    InvalidDataType,
    InvalidCodeValue,
    SegmentOutOfSequence,
}

/// The mathematical content of a `ValidationError`.
#[verifier::ext_equal]
pub struct ValidationErrorView {
    pub segment_id: Seq<char>,
    pub element_position: Option<usize>,
    pub error_type: ValidationErrorType,
    pub message: Seq<char>,
}

impl View for ValidationError {
    type V = ValidationErrorView;

    open spec fn view(&self) -> ValidationErrorView {
        ValidationErrorView {
            segment_id: self.segment_id@,
            element_position: self.element_position,
            error_type: self.error_type,
            message: self.message@,
        }
    }
}

impl DeepView for ValidationError {
    type V = ValidationErrorView;

    open spec fn deep_view(&self) -> ValidationErrorView {
        self.view()
    }
}

/// The mathematical content of a `ValidationWarning`.
#[verifier::ext_equal]
pub struct ValidationWarningView {
    pub segment_id: Seq<char>,
    pub element_position: Option<usize>,
    pub message: Seq<char>,
}

impl View for ValidationWarning {
    type V = ValidationWarningView;

    open spec fn view(&self) -> ValidationWarningView {
        ValidationWarningView {
            segment_id: self.segment_id@,
            element_position: self.element_position,
            message: self.message@,
        }
    }
}

impl DeepView for ValidationWarning {
    type V = ValidationWarningView;

    open spec fn deep_view(&self) -> ValidationWarningView {
        self.view()
    }
}

impl ValidationResult {
    /// An empty, valid result.
    pub fn new() -> (r: Self)
        ensures
            r.is_valid,
            r.errors@.len() == 0,
            r.warnings@.len() == 0,
    {
        ValidationResult { is_valid: true, errors: Vec::new(), warnings: Vec::new() }
    }

    /// Record an error; the result turns invalid.
    pub fn add_error(&mut self, error: ValidationError)
        ensures
            !final(self).is_valid,
            final(self).errors.deep_view() == old(self).errors.deep_view().push(error@),
            final(self).warnings == old(self).warnings,
    {
        let ghost prev = self.errors.deep_view();
        let ghost ev = error@;
        self.is_valid = false;
        self.errors.push(error);
        proof {
            assert(self.errors.deep_view() =~= prev.push(ev));
        }
    }

    /// Record a warning; validity is unchanged.
    pub fn add_warning(&mut self, warning: ValidationWarning)
        ensures
            final(self).is_valid == old(self).is_valid,
            final(self).warnings.deep_view() == old(self).warnings.deep_view().push(warning@),
            final(self).errors == old(self).errors,
    {
        let ghost prev = self.warnings.deep_view();
        let ghost wv = warning@;
        self.warnings.push(warning);
        proof {
            assert(self.warnings.deep_view() =~= prev.push(wv));
        }
    }

    /// Fold another result in: its diagnostics are appended and invalidity
    /// carries over.
    pub fn merge(&mut self, other: ValidationResult)
        ensures
            final(self).is_valid == (old(self).is_valid && other.is_valid),
            final(self).errors.deep_view() == old(self).errors.deep_view()
                + other.errors.deep_view(),
            final(self).warnings.deep_view() == old(self).warnings.deep_view()
                + other.warnings.deep_view(),
    {
        let ghost preve = self.errors.deep_view();
        let ghost prevw = self.warnings.deep_view();
        let ghost oe = other.errors.deep_view();
        let ghost ow = other.warnings.deep_view();
        if !other.is_valid {
            self.is_valid = false;
        }
        let mut other_errors = other.errors;
        let mut other_warnings = other.warnings;
        self.errors.append(&mut other_errors);
        self.warnings.append(&mut other_warnings);
        proof {
            assert(self.errors.deep_view() =~= preve + oe);
            assert(self.warnings.deep_view() =~= prevw + ow);
        }
    }
}

impl Default for ValidationResult {
    /// An empty, valid result.
    fn default() -> (r: Self)
        ensures
            r.is_valid,
            r.errors@.len() == 0,
            r.warnings@.len() == 0,
    {
        ValidationResult::new()
    }
}

} // verus!
