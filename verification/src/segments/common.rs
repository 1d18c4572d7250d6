use crate::error::EdiError;
use crate::models::segment::{Segment, SegmentView};
use crate::segments::control::{get_raw_element, raw_element};
use crate::segments::SegmentParser;
use crate::utils::{spec_trim, string_eq_str, trim_whitespace};
use vstd::prelude::*;

verus! {

/// N1 - Name.
#[derive(Debug, PartialEq)]
pub struct N1Segment {
    pub entity_identifier_code: String,
    pub name: Option<String>,
    pub identification_code_qualifier: Option<String>,
    pub identification_code: Option<String>,
    pub entity_relationship_code: Option<String>,
    pub entity_identifier_code_2: Option<String>,
}

/// Whether a structured name segment holds exactly a segment's fields.
pub open spec fn n1_matches(s: &N1Segment, seg: SegmentView) -> bool {
    &&& seg.elements.len() >= 1
    &&& s.entity_identifier_code@ == seg.elements[0]
    &&& (match s.name {
        Some(v) => raw_element(seg.elements, 1) == Some(v@),
        None => raw_element(seg.elements, 1) is None,
    })
    &&& (match s.identification_code_qualifier {
        Some(v) => raw_element(seg.elements, 2) == Some(v@),
        None => raw_element(seg.elements, 2) is None,
    })
    &&& (match s.identification_code {
        Some(v) => raw_element(seg.elements, 3) == Some(v@),
        None => raw_element(seg.elements, 3) is None,
    })
    &&& (match s.entity_relationship_code {
        Some(v) => raw_element(seg.elements, 4) == Some(v@),
        None => raw_element(seg.elements, 4) is None,
    })
    &&& (match s.entity_identifier_code_2 {
        Some(v) => raw_element(seg.elements, 5) == Some(v@),
        None => raw_element(seg.elements, 5) is None,
    })
}

impl N1Segment {
    /// Build the structured name segment; it needs at least its entity
    /// identifier code.
    pub fn parse_segment(segment: &Segment) -> (r: Result<N1Segment, EdiError>)
        ensures
            match r {
                Ok(s) => segment@.id == "N1"@ && n1_matches(&s, segment@),
                Err(_) => segment@.id != "N1"@ || segment@.elements.len() < 1,
            },
    {
        if !string_eq_str(&segment.id, "N1") {
            return Err(
                EdiError::InvalidSegmentFormat(
                    String::from_str("Expected N1, got ").concat(segment.id.as_str()),
                ),
            );
        }
        if segment.elements.len() < 1 {
            return Err(
                EdiError::InvalidSegmentFormat(
                    String::from_str("N1 segment requires at least 1 element"),
                ),
            );
        }
        proof {
            assert(segment@.elements[0] == segment.elements@[0]@);
        }
        Ok(
            N1Segment {
                entity_identifier_code: segment.elements[0].clone(),
                name: get_raw_element(&segment.elements, 1),
                identification_code_qualifier: get_raw_element(&segment.elements, 2),
                identification_code: get_raw_element(&segment.elements, 3),
                entity_relationship_code: get_raw_element(&segment.elements, 4),
                entity_identifier_code_2: get_raw_element(&segment.elements, 5),
            },
        )
    }

    /// A name segment is sound when its entity identifier code is not blank.
    pub fn validate(&self) -> (r: Result<(), EdiError>)
        ensures
            r is Ok <==> spec_trim(self.entity_identifier_code@).len() > 0,
            r matches Err(e) ==> e matches EdiError::ValidationError(m) && m@
                == "Entity identifier code cannot be empty"@,
    {
        if trim_whitespace(self.entity_identifier_code.as_str()).as_str().unicode_len() == 0 {
            return Err(
                EdiError::ValidationError(
                    String::from_str("Entity identifier code cannot be empty"),
                ),
            );
        }
        Ok(())
    }
}

impl SegmentParser for N1Segment {
    type Output = N1Segment;

    fn parse_segment(segment: &Segment) -> Result<N1Segment, EdiError> {
        N1Segment::parse_segment(segment)
    }

    fn segment_id() -> &'static str {
        "N1"
    }

    fn validate(&self) -> Result<(), EdiError> {
        N1Segment::validate(self)
    }
}

/// REF - Reference Identification.
#[derive(Debug, PartialEq)]
pub struct RefSegment {
    pub reference_identification_qualifier: String,
    pub reference_identification: Option<String>,
    pub description: Option<String>,
    pub reference_identifier: Option<String>,
}

impl RefSegment {
    /// Build the structured reference segment; it needs at least its
    /// qualifier.
    pub fn parse_segment(segment: &Segment) -> (r: Result<RefSegment, EdiError>)
        ensures
            match r {
                Ok(s) => segment@.id == "REF"@ && segment@.elements.len() >= 1
                    && s.reference_identification_qualifier@ == segment@.elements[0] && (match s.reference_identification {
                    Some(v) => raw_element(segment@.elements, 1) == Some(v@),
                    None => raw_element(segment@.elements, 1) is None,
                }) && (match s.description {
                    Some(v) => raw_element(segment@.elements, 2) == Some(v@),
                    None => raw_element(segment@.elements, 2) is None,
                }) && (match s.reference_identifier {
                    Some(v) => raw_element(segment@.elements, 3) == Some(v@),
                    None => raw_element(segment@.elements, 3) is None,
                }),
                Err(_) => segment@.id != "REF"@ || segment@.elements.len() < 1,
            },
    {
        if !string_eq_str(&segment.id, "REF") {
            return Err(
                EdiError::InvalidSegmentFormat(
                    String::from_str("Expected REF, got ").concat(segment.id.as_str()),
                ),
            );
        }
        if segment.elements.len() < 1 {
            return Err(
                EdiError::InvalidSegmentFormat(
                    String::from_str("REF segment requires at least 1 element"),
                ),
            );
        }
        proof {
            assert(segment@.elements[0] == segment.elements@[0]@);
        }
        Ok(
            RefSegment {
                reference_identification_qualifier: segment.elements[0].clone(),
                reference_identification: get_raw_element(&segment.elements, 1),
                description: get_raw_element(&segment.elements, 2),
                reference_identifier: get_raw_element(&segment.elements, 3),
            },
        )
    }

    /// A reference segment carries no further local rule.
    pub fn validate(&self) -> (r: Result<(), EdiError>)
        ensures
            r is Ok,
    {
        Ok(())
    }
}

impl SegmentParser for RefSegment {
    type Output = RefSegment;

    fn parse_segment(segment: &Segment) -> Result<RefSegment, EdiError> {
        RefSegment::parse_segment(segment)
    }

    fn segment_id() -> &'static str {
        "REF"
    }

    fn validate(&self) -> Result<(), EdiError> {
        RefSegment::validate(self)
    }
}

/// DTM - Date/Time Reference.
#[derive(Debug, PartialEq)]
pub struct DtmSegment {
    pub date_time_qualifier: String,
    pub date: Option<String>,
    pub time: Option<String>,
    pub time_code: Option<String>,
    pub date_time_period_format_qualifier: Option<String>,
    pub date_time_period: Option<String>,
}

impl DtmSegment {
    /// Build the structured date segment; it needs at least its qualifier.
    pub fn parse_segment(segment: &Segment) -> (r: Result<DtmSegment, EdiError>)
        ensures
            match r {
                Ok(s) => segment@.id == "DTM"@ && segment@.elements.len() >= 1
                    && s.date_time_qualifier@ == segment@.elements[0] && (match s.date {
                    Some(v) => raw_element(segment@.elements, 1) == Some(v@),
                    None => raw_element(segment@.elements, 1) is None,
                }) && (match s.time {
                    Some(v) => raw_element(segment@.elements, 2) == Some(v@),
                    None => raw_element(segment@.elements, 2) is None,
                }) && (match s.time_code {
                    Some(v) => raw_element(segment@.elements, 3) == Some(v@),
                    None => raw_element(segment@.elements, 3) is None,
                }) && (match s.date_time_period_format_qualifier {
                    Some(v) => raw_element(segment@.elements, 4) == Some(v@),
                    None => raw_element(segment@.elements, 4) is None,
                }) && (match s.date_time_period {
                    Some(v) => raw_element(segment@.elements, 5) == Some(v@),
                    None => raw_element(segment@.elements, 5) is None,
                }),
                Err(_) => segment@.id != "DTM"@ || segment@.elements.len() < 1,
            },
    {
        if !string_eq_str(&segment.id, "DTM") {
            return Err(
                EdiError::InvalidSegmentFormat(
                    String::from_str("Expected DTM, got ").concat(segment.id.as_str()),
                ),
            );
        }
        if segment.elements.len() < 1 {
            return Err(
                EdiError::InvalidSegmentFormat(
                    String::from_str("DTM segment requires at least 1 element"),
                ),
            );
        }
        proof {
            assert(segment@.elements[0] == segment.elements@[0]@);
        }
        Ok(
            DtmSegment {
                date_time_qualifier: segment.elements[0].clone(),
                date: get_raw_element(&segment.elements, 1),
                time: get_raw_element(&segment.elements, 2),
                time_code: get_raw_element(&segment.elements, 3),
                date_time_period_format_qualifier: get_raw_element(&segment.elements, 4),
                date_time_period: get_raw_element(&segment.elements, 5),
            },
        )
    }

    /// A date segment carries no further local rule.
    pub fn validate(&self) -> (r: Result<(), EdiError>)
        ensures
            r is Ok,
    {
        Ok(())
    }
}

impl SegmentParser for DtmSegment {
    type Output = DtmSegment;

    fn parse_segment(segment: &Segment) -> Result<DtmSegment, EdiError> {
        DtmSegment::parse_segment(segment)
    }

    fn segment_id() -> &'static str {
        "DTM"
    }

    fn validate(&self) -> Result<(), EdiError> {
        DtmSegment::validate(self)
    }
}

} // verus!
