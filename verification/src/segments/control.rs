use crate::error::EdiError;
use crate::models::segment::{Segment, SegmentView};
use crate::segments::SegmentParser;
use crate::utils::{spec_trim, string_eq_str, trim_whitespace};
use vstd::prelude::*;

verus! {

/// The element at a position, when present; empty placeholders are kept.
pub open spec fn raw_element(elements: Seq<Seq<char>>, i: int) -> Option<Seq<char>> {
    if 0 <= i < elements.len() {
        Some(elements[i])
    } else {
        None
    }
}

pub fn get_raw_element(elements: &Vec<String>, index: usize) -> (r: Option<String>)
    ensures
        match r {
            Some(v) => raw_element(elements.deep_view(), index as int) == Some(v@),
            None => raw_element(elements.deep_view(), index as int) is None,
        },
{
    if index < elements.len() {
        proof {
            assert(elements.deep_view()[index as int] == elements@[index as int]@);
        }
        Some(elements[index].clone())
    } else {
        None
    }
}

/// ISA - Interchange Control Header.
#[derive(Debug, PartialEq)]
pub struct IsaSegment {
    pub authorization_info_qualifier: String,
    pub authorization_information: String,
    pub security_info_qualifier: String,
    pub security_information: String,
    pub interchange_id_qualifier_sender: String,
    pub interchange_sender_id: String,
    pub interchange_id_qualifier_receiver: String,
    pub interchange_receiver_id: String,
    pub interchange_date: String,
    pub interchange_time: String,
    pub interchange_control_standards_id: String,
    pub interchange_control_version_number: String,
    pub interchange_control_number: String,
    pub acknowledgment_requested: String,
    pub usage_indicator: String,
    pub component_element_separator: String,
}

impl IsaSegment {
    /// Build the structured header from a segment with at least sixteen
    /// elements.
    pub fn parse_segment(segment: &Segment) -> (r: Result<IsaSegment, EdiError>)
        ensures
            match r {
                Ok(s) => segment@.id == "ISA"@ && segment@.elements.len() >= 16
                    && s.authorization_info_qualifier@ == segment@.elements[0]
                    && s.authorization_information@ == segment@.elements[1]
                    && s.security_info_qualifier@ == segment@.elements[2]
                    && s.security_information@ == segment@.elements[3]
                    && s.interchange_id_qualifier_sender@ == segment@.elements[4]
                    && s.interchange_sender_id@ == segment@.elements[5]
                    && s.interchange_id_qualifier_receiver@ == segment@.elements[6]
                    && s.interchange_receiver_id@ == segment@.elements[7] && s.interchange_date@
                    == segment@.elements[8] && s.interchange_time@ == segment@.elements[9]
                    && s.interchange_control_standards_id@ == segment@.elements[10]
                    && s.interchange_control_version_number@ == segment@.elements[11]
                    && s.interchange_control_number@ == segment@.elements[12]
                    && s.acknowledgment_requested@ == segment@.elements[13] && s.usage_indicator@
                    == segment@.elements[14] && s.component_element_separator@
                    == segment@.elements[15],
                Err(_) => segment@.id != "ISA"@ || segment@.elements.len() < 16,
            },
    {
        if !string_eq_str(&segment.id, "ISA") {
            return Err(
                EdiError::InvalidSegmentFormat(
                    String::from_str("Expected ISA, got ").concat(segment.id.as_str()),
                ),
            );
        }
        if segment.elements.len() < 16 {
            return Err(
                EdiError::InvalidSegmentFormat(
                    String::from_str("ISA segment requires 16 elements"),
                ),
            );
        }
        proof {
            assert forall|k: int| 0 <= k < 16 implies segment@.elements[k]
                == segment.elements@[k]@ by {}
        }
        Ok(
            IsaSegment {
                authorization_info_qualifier: segment.elements[0].clone(),
                authorization_information: segment.elements[1].clone(),
                security_info_qualifier: segment.elements[2].clone(),
                security_information: segment.elements[3].clone(),
                interchange_id_qualifier_sender: segment.elements[4].clone(),
                interchange_sender_id: segment.elements[5].clone(),
                interchange_id_qualifier_receiver: segment.elements[6].clone(),
                interchange_receiver_id: segment.elements[7].clone(),
                interchange_date: segment.elements[8].clone(),
                interchange_time: segment.elements[9].clone(),
                interchange_control_standards_id: segment.elements[10].clone(),
                interchange_control_version_number: segment.elements[11].clone(),
                interchange_control_number: segment.elements[12].clone(),
                acknowledgment_requested: segment.elements[13].clone(),
                usage_indicator: segment.elements[14].clone(),
                component_element_separator: segment.elements[15].clone(),
            },
        )
    }

    /// A header is sound when its control number is not blank.
    pub fn validate(&self) -> (r: Result<(), EdiError>)
        ensures
            r is Ok <==> spec_trim(self.interchange_control_number@).len() > 0,
            r matches Err(e) ==> e matches EdiError::ValidationError(m) && m@
                == "ISA control number cannot be empty"@,
    {
        if trim_whitespace(self.interchange_control_number.as_str()).as_str().unicode_len() == 0 {
            return Err(
                EdiError::ValidationError(
                    String::from_str("ISA control number cannot be empty"),
                ),
            );
        }
        Ok(())
    }
}

impl SegmentParser for IsaSegment {
    type Output = IsaSegment;

    fn parse_segment(segment: &Segment) -> Result<IsaSegment, EdiError> {
        IsaSegment::parse_segment(segment)
    }

    fn segment_id() -> &'static str {
        "ISA"
    }

    fn validate(&self) -> Result<(), EdiError> {
        IsaSegment::validate(self)
    }
}

/// GS - Functional Group Header.
#[derive(Debug, PartialEq)]
pub struct GsSegment {
    pub functional_identifier_code: String,
    pub application_sender_code: String,
    pub application_receiver_code: String,
    pub date: String,
    pub time: String,
    pub group_control_number: String,
    pub responsible_agency_code: String,
    pub version_release_id: String,
}

impl GsSegment {
    /// Build the structured group header from a segment with at least eight
    /// elements.
    pub fn parse_segment(segment: &Segment) -> (r: Result<GsSegment, EdiError>)
        ensures
            match r {
                Ok(s) => segment@.id == "GS"@ && segment@.elements.len() >= 8
                    && s.functional_identifier_code@ == segment@.elements[0]
                    && s.application_sender_code@ == segment@.elements[1]
                    && s.application_receiver_code@ == segment@.elements[2] && s.date@
                    == segment@.elements[3] && s.time@ == segment@.elements[4]
                    && s.group_control_number@ == segment@.elements[5]
                    && s.responsible_agency_code@ == segment@.elements[6] && s.version_release_id@
                    == segment@.elements[7],
                Err(_) => segment@.id != "GS"@ || segment@.elements.len() < 8,
            },
    {
        if !string_eq_str(&segment.id, "GS") {
            return Err(
                EdiError::InvalidSegmentFormat(
                    String::from_str("Expected GS, got ").concat(segment.id.as_str()),
                ),
            );
        }
        if segment.elements.len() < 8 {
            return Err(
                EdiError::InvalidSegmentFormat(String::from_str("GS segment requires 8 elements")),
            );
        }
        proof {
            assert forall|k: int| 0 <= k < 8 implies segment@.elements[k]
                == segment.elements@[k]@ by {}
        }
        Ok(
            GsSegment {
                functional_identifier_code: segment.elements[0].clone(),
                application_sender_code: segment.elements[1].clone(),
                application_receiver_code: segment.elements[2].clone(),
                date: segment.elements[3].clone(),
                time: segment.elements[4].clone(),
                group_control_number: segment.elements[5].clone(),
                responsible_agency_code: segment.elements[6].clone(),
                version_release_id: segment.elements[7].clone(),
            },
        )
    }

    /// A group header is sound when its control number is not blank.
    pub fn validate(&self) -> (r: Result<(), EdiError>)
        ensures
            r is Ok <==> spec_trim(self.group_control_number@).len() > 0,
            r matches Err(e) ==> e matches EdiError::ValidationError(m) && m@
                == "GS control number cannot be empty"@,
    {
        if trim_whitespace(self.group_control_number.as_str()).as_str().unicode_len() == 0 {
            return Err(
                EdiError::ValidationError(String::from_str("GS control number cannot be empty")),
            );
        }
        Ok(())
    }
}

impl SegmentParser for GsSegment {
    type Output = GsSegment;

    fn parse_segment(segment: &Segment) -> Result<GsSegment, EdiError> {
        GsSegment::parse_segment(segment)
    }

    fn segment_id() -> &'static str {
        "GS"
    }

    fn validate(&self) -> Result<(), EdiError> {
        GsSegment::validate(self)
    }
}

/// ST - Transaction Set Header.
#[derive(Debug, PartialEq)]
pub struct StSegment {
    pub transaction_set_identifier_code: String,
    pub transaction_set_control_number: String,
    pub implementation_convention_reference: Option<String>,
}

/// Whether a structured transaction header holds exactly a segment's fields.
pub open spec fn st_matches(s: &StSegment, seg: SegmentView) -> bool {
    &&& seg.elements.len() >= 2
    &&& s.transaction_set_identifier_code@ == seg.elements[0]
    &&& s.transaction_set_control_number@ == seg.elements[1]
    &&& (match s.implementation_convention_reference {
        Some(v) => raw_element(seg.elements, 2) == Some(v@),
        None => raw_element(seg.elements, 2) is None,
    })
}

impl StSegment {
    /// Build the structured transaction header from a segment with at least
    /// two elements.
    pub fn parse_segment(segment: &Segment) -> (r: Result<StSegment, EdiError>)
        ensures
            match r {
                Ok(s) => segment@.id == "ST"@ && segment@.elements.len() >= 2
                    && s.transaction_set_identifier_code@ == segment@.elements[0]
                    && s.transaction_set_control_number@ == segment@.elements[1] && (match s.implementation_convention_reference {
                    Some(v) => raw_element(segment@.elements, 2) == Some(v@),
                    None => raw_element(segment@.elements, 2) is None,
                }),
                Err(_) => segment@.id != "ST"@ || segment@.elements.len() < 2,
            },
    {
        if !string_eq_str(&segment.id, "ST") {
            return Err(
                EdiError::InvalidSegmentFormat(
                    String::from_str("Expected ST, got ").concat(segment.id.as_str()),
                ),
            );
        }
        if segment.elements.len() < 2 {
            return Err(
                EdiError::InvalidSegmentFormat(
                    String::from_str("ST segment requires at least 2 elements"),
                ),
            );
        }
        proof {
            assert(segment@.elements[0] == segment.elements@[0]@);
            assert(segment@.elements[1] == segment.elements@[1]@);
        }
        Ok(
            StSegment {
                transaction_set_identifier_code: segment.elements[0].clone(),
                transaction_set_control_number: segment.elements[1].clone(),
                implementation_convention_reference: get_raw_element(&segment.elements, 2),
            },
        )
    }


    /// A transaction header is sound when its control number is not blank.
    pub fn validate(&self) -> (r: Result<(), EdiError>)
        ensures
            r is Ok <==> spec_trim(self.transaction_set_control_number@).len() > 0,
            r matches Err(e) ==> e matches EdiError::ValidationError(m) && m@
                == "ST control number cannot be empty"@,
    {
        if trim_whitespace(self.transaction_set_control_number.as_str()).as_str().unicode_len()
            == 0 {
            return Err(
                EdiError::ValidationError(String::from_str("ST control number cannot be empty")),
            );
        }
        Ok(())
    }
}

impl SegmentParser for StSegment {
    type Output = StSegment;

    fn parse_segment(segment: &Segment) -> Result<StSegment, EdiError> {
        StSegment::parse_segment(segment)
    }

    fn segment_id() -> &'static str {
        "ST"
    }

    fn validate(&self) -> Result<(), EdiError> {
        StSegment::validate(self)
    }
}

} // verus!
