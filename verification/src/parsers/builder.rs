use crate::error::EdiError;
use crate::parsers::x12::X12Parser;
use vstd::prelude::*;

verus! {

/// Builds an `X12Parser` from optional settings; unset separators fall back
/// to the standard ones.
#[derive(Debug)]
pub struct X12ParserBuilder {
    element_separator: Option<char>,
    segment_separator: Option<char>,
    sub_element_separator: Option<char>,
    strict_validation: bool,
    trim_whitespace: bool,
}

/// The settings collected so far.
pub struct X12ParserBuilderView {
    pub element_separator: Option<char>,
    pub segment_separator: Option<char>,
    pub sub_element_separator: Option<char>,
    pub strict_validation: bool,
    pub trim_whitespace: bool,
}

impl View for X12ParserBuilder {
    type V = X12ParserBuilderView;

    closed spec fn view(&self) -> X12ParserBuilderView {
        X12ParserBuilderView {
            element_separator: self.element_separator,
            segment_separator: self.segment_separator,
            sub_element_separator: self.sub_element_separator,
            strict_validation: self.strict_validation,
            trim_whitespace: self.trim_whitespace,
        }
    }
}

pub open spec fn sep_or(sep: Option<char>, fallback: char) -> char {
    match sep {
        Some(c) => c,
        None => fallback,
    }
}

impl X12ParserBuilder {
    /// A builder with no separators chosen, lenient validation and trimming
    /// on.
    pub fn new() -> (r: Self)
        ensures
            r@.element_separator is None,
            r@.segment_separator is None,
            r@.sub_element_separator is None,
            !r@.strict_validation,
            r@.trim_whitespace,
    {
        X12ParserBuilder {
            element_separator: None,
            segment_separator: None,
            sub_element_separator: None,
            strict_validation: false,
            trim_whitespace: true,
        }
    }

    /// Choose the element separator.
    pub fn element_separator(self, sep: char) -> (r: Self)
        ensures
            r@ == (X12ParserBuilderView { element_separator: Some(sep), ..self@ }),
    {
        X12ParserBuilder { element_separator: Some(sep), ..self }
    }

    /// Choose the segment separator.
    pub fn segment_separator(self, sep: char) -> (r: Self)
        ensures
            r@ == (X12ParserBuilderView { segment_separator: Some(sep), ..self@ }),
    {
        X12ParserBuilder { segment_separator: Some(sep), ..self }
    }

    /// Choose the sub-element separator.
    pub fn sub_element_separator(self, sep: char) -> (r: Self)
        ensures
            r@ == (X12ParserBuilderView { sub_element_separator: Some(sep), ..self@ }),
    {
        X12ParserBuilder { sub_element_separator: Some(sep), ..self }
    }

    /// Toggle strict validation.
    pub fn strict_validation(self, strict: bool) -> (r: Self)
        ensures
            r@ == (X12ParserBuilderView { strict_validation: strict, ..self@ }),
    {
        X12ParserBuilder { strict_validation: strict, ..self }
    }

    /// Toggle whitespace trimming.
    pub fn trim_whitespace(self, trim: bool) -> (r: Self)
        ensures
            r@ == (X12ParserBuilderView { trim_whitespace: trim, ..self@ }),
    {
        X12ParserBuilder { trim_whitespace: trim, ..self }
    }

    /// Build the parser.  The three separators, with their defaults filled
    /// in, must be pairwise distinct.
    pub fn build(self) -> (r: Result<X12Parser, EdiError>)
        ensures
            ({
                let esep = sep_or(self@.element_separator, '*');
                let ssep = sep_or(self@.segment_separator, '~');
                let subsep = sep_or(self@.sub_element_separator, '>');
                match r {
                    Ok(p) => esep != ssep && esep != subsep && ssep != subsep
                        && p@.element_separator == esep && p@.segment_separator == ssep
                        && p@.sub_element_separator == subsep && p@.strict_validation
                        == self@.strict_validation && p@.trim_whitespace == self@.trim_whitespace,
                    Err(e) => (esep == ssep || esep == subsep || ssep == subsep) && (
                    e matches EdiError::ValidationError(m) && m@ == "Separators must be different"@),
                }
            }),
    {
        let element_sep = match self.element_separator {
            Some(c) => c,
            None => '*',
        };
        let segment_sep = match self.segment_separator {
            Some(c) => c,
            None => '~',
        };
        let sub_element_sep = match self.sub_element_separator {
            Some(c) => c,
            None => '>',
        };
        if element_sep == segment_sep || element_sep == sub_element_sep || segment_sep
            == sub_element_sep {
            return Err(EdiError::ValidationError(String::from_str("Separators must be different")));
        }
        Ok(
            X12Parser::with_config(
                element_sep,
                segment_sep,
                sub_element_sep,
                self.strict_validation,
                self.trim_whitespace,
            ),
        )
    }
}

impl Default for X12ParserBuilder {
    /// A fresh builder.
    fn default() -> (r: Self)
        ensures
            r@.element_separator is None,
            r@.segment_separator is None,
            r@.sub_element_separator is None,
            !r@.strict_validation,
            r@.trim_whitespace,
    {
        X12ParserBuilder::new()
    }
}

} // verus!
