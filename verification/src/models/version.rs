use crate::error::EdiError;
use crate::models::segment::Segment;
use vstd::prelude::*;

verus! {

/// The interchange control version, read from the twelfth element of the
/// interchange header.
#[derive(Debug, PartialEq)]
pub enum X12Version {
    V4010,
    V5010,
    V6010,
    Unknown(String),
}

impl Clone for X12Version {
    fn clone(&self) -> (r: Self)
        ensures
            r@ == self@,
    {
        match self {
            X12Version::V4010 => X12Version::V4010,
            X12Version::V5010 => X12Version::V5010,
            X12Version::V6010 => X12Version::V6010,
            X12Version::Unknown(s) => X12Version::Unknown(s.clone()),
        }
    }
}

/// The mathematical content of an `X12Version`.
#[verifier::ext_equal]
pub enum X12VersionView {
    V4010,
    V5010,
    V6010,
    Unknown(Seq<char>),
}

impl View for X12Version {
    type V = X12VersionView;

    open spec fn view(&self) -> X12VersionView {
        match self {
            X12Version::V4010 => X12VersionView::V4010,
            X12Version::V5010 => X12VersionView::V5010,
            X12Version::V6010 => X12VersionView::V6010,
            X12Version::Unknown(s) => X12VersionView::Unknown(s@),
        }
    }
}

/// The version denoted by a control version code.
pub open spec fn spec_version_of(code: Seq<char>) -> X12VersionView {
    if code == "00401"@ {
        X12VersionView::V4010
    } else if code == "00501"@ {
        X12VersionView::V5010
    } else if code == "00601"@ {
        X12VersionView::V6010
    } else {
        X12VersionView::Unknown(code)
    }
}

impl X12Version {
    /// Read the version from an interchange header segment; the code sits at
    /// element position 11 (zero-based, not counting the identifier).
    pub fn from_isa(isa_segment: &Segment) -> (r: Result<Self, EdiError>)
        ensures
            match r {
                Ok(v) => isa_segment@.elements.len() >= 12 && v@ == spec_version_of(
                    isa_segment@.elements[11],
                ),
                Err(e) => isa_segment@.elements.len() < 12 && (e matches EdiError::InvalidSegmentFormat(m)
                    && m@ == "ISA segment too short for version"@),
            },
    {
        if isa_segment.elements.len() < 12 {
            return Err(
                EdiError::InvalidSegmentFormat(
                    String::from_str("ISA segment too short for version"),
                ),
            );
        }
        let code = &isa_segment.elements[11];
        let r = if crate::utils::string_eq_str(code, "00401") {
            X12Version::V4010
        } else if crate::utils::string_eq_str(code, "00501") {
            X12Version::V5010
        } else if crate::utils::string_eq_str(code, "00601") {
            X12Version::V6010
        } else {
            X12Version::Unknown(code.clone())
        };
        proof {
            assert(isa_segment@.elements[11] == isa_segment.elements@[11]@);
        }
        Ok(r)
    }

    /// The control version code this version stands for.
    pub fn as_str(&self) -> (r: &str)
        ensures
            r@ == self.spec_as_str(),
    {
        match self {
            X12Version::V4010 => "00401",
            X12Version::V5010 => "00501",
            X12Version::V6010 => "00601",
            X12Version::Unknown(s) => s.as_str(),
        }
    }

    pub open spec fn spec_as_str(&self) -> Seq<char> {
        match self {
            X12Version::V4010 => "00401"@,
            X12Version::V5010 => "00501"@,
            X12Version::V6010 => "00601"@,
            X12Version::Unknown(s) => s@,
        }
    }
}

} // verus!
