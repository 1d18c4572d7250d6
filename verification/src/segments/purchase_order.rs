use crate::error::EdiError;
use crate::models::segment::{Segment, SegmentView};
use crate::segments::control::{get_raw_element, raw_element};
use crate::segments::SegmentParser;
use crate::utils::{all_digits, parse_u32, spec_num, spec_trim, string_eq_str, trim_whitespace};
use vstd::prelude::*;

verus! {

/// BEG - Beginning Segment for Purchase Order.
#[derive(Debug, PartialEq)]
pub struct BegSegment {
    pub transaction_set_purpose_code: String,
    pub purchase_order_type_code: String,
    pub purchase_order_number: String,
    pub release_number: Option<String>,
    pub date: String,
    pub contract_number: Option<String>,
    pub acknowledgment_type: Option<String>,
    pub invoice_type_code: Option<String>,
    pub contract_type_code: Option<String>,
    pub purchase_category: Option<String>,
    pub security_level_code: Option<String>,
}

/// Whether a structured beginning segment holds exactly a segment's fields.
pub open spec fn beg_matches(s: &BegSegment, seg: SegmentView) -> bool {
    &&& seg.elements.len() >= 5
    &&& s.transaction_set_purpose_code@ == seg.elements[0]
    &&& s.purchase_order_type_code@ == seg.elements[1]
    &&& s.purchase_order_number@ == seg.elements[2]
    &&& (match s.release_number {
        Some(v) => raw_element(seg.elements, 3) == Some(v@),
        None => raw_element(seg.elements, 3) is None,
    })
    &&& s.date@ == seg.elements[4]
    &&& (match s.contract_number {
        Some(v) => raw_element(seg.elements, 5) == Some(v@),
        None => raw_element(seg.elements, 5) is None,
    })
    &&& (match s.acknowledgment_type {
        Some(v) => raw_element(seg.elements, 6) == Some(v@),
        None => raw_element(seg.elements, 6) is None,
    })
    &&& (match s.invoice_type_code {
        Some(v) => raw_element(seg.elements, 7) == Some(v@),
        None => raw_element(seg.elements, 7) is None,
    })
    &&& (match s.contract_type_code {
        Some(v) => raw_element(seg.elements, 8) == Some(v@),
        None => raw_element(seg.elements, 8) is None,
    })
    &&& (match s.purchase_category {
        Some(v) => raw_element(seg.elements, 9) == Some(v@),
        None => raw_element(seg.elements, 9) is None,
    })
    &&& (match s.security_level_code {
        Some(v) => raw_element(seg.elements, 10) == Some(v@),
        None => raw_element(seg.elements, 10) is None,
    })
}

impl BegSegment {
    /// Build the structured beginning segment; it needs at least five
    /// elements.
    pub fn parse_segment(segment: &Segment) -> (r: Result<BegSegment, EdiError>)
        ensures
            match r {
                Ok(s) => segment@.id == "BEG"@ && beg_matches(&s, segment@),
                Err(_) => segment@.id != "BEG"@ || segment@.elements.len() < 5,
            },
    {
        if !string_eq_str(&segment.id, "BEG") {
            return Err(
                EdiError::InvalidSegmentFormat(
                    String::from_str("Expected BEG, got ").concat(segment.id.as_str()),
                ),
            );
        }
        if segment.elements.len() < 5 {
            return Err(
                EdiError::InvalidSegmentFormat(
                    String::from_str("BEG segment requires at least 5 elements"),
                ),
            );
        }
        proof {
            assert(segment@.elements[0] == segment.elements@[0]@);
            assert(segment@.elements[1] == segment.elements@[1]@);
            assert(segment@.elements[2] == segment.elements@[2]@);
            assert(segment@.elements[4] == segment.elements@[4]@);
        }
        Ok(
            BegSegment {
                transaction_set_purpose_code: segment.elements[0].clone(),
                purchase_order_type_code: segment.elements[1].clone(),
                purchase_order_number: segment.elements[2].clone(),
                release_number: get_raw_element(&segment.elements, 3),
                date: segment.elements[4].clone(),
                contract_number: get_raw_element(&segment.elements, 5),
                acknowledgment_type: get_raw_element(&segment.elements, 6),
                invoice_type_code: get_raw_element(&segment.elements, 7),
                contract_type_code: get_raw_element(&segment.elements, 8),
                purchase_category: get_raw_element(&segment.elements, 9),
                security_level_code: get_raw_element(&segment.elements, 10),
            },
        )
    }

    /// A beginning segment is sound when its purchase order number is not
    /// blank.
    pub fn validate(&self) -> (r: Result<(), EdiError>)
        ensures
            r is Ok <==> spec_trim(self.purchase_order_number@).len() > 0,
            r matches Err(e) ==> e matches EdiError::ValidationError(m) && m@
                == "Purchase order number cannot be empty"@,
    {
        if trim_whitespace(self.purchase_order_number.as_str()).as_str().unicode_len() == 0 {
            return Err(
                EdiError::ValidationError(
                    String::from_str("Purchase order number cannot be empty"),
                ),
            );
        }
        Ok(())
    }
}

impl SegmentParser for BegSegment {
    type Output = BegSegment;

    fn parse_segment(segment: &Segment) -> Result<BegSegment, EdiError> {
        BegSegment::parse_segment(segment)
    }

    fn segment_id() -> &'static str {
        "BEG"
    }

    fn validate(&self) -> Result<(), EdiError> {
        BegSegment::validate(self)
    }
}

/// PO1 - Baseline Item Data, every position kept as raw text.
#[derive(Debug, PartialEq)]
pub struct Po1Segment {
    pub assigned_identification: Option<String>,
    pub quantity_ordered: Option<String>,
    pub unit_or_basis_for_measurement_code: Option<String>,
    pub unit_price: Option<String>,
    pub basis_of_unit_price_code: Option<String>,
    pub product_id_qualifier_1: Option<String>,
    pub product_id_1: Option<String>,
    pub product_id_qualifier_2: Option<String>,
    pub product_id_2: Option<String>,
    pub product_id_qualifier_3: Option<String>,
    pub product_id_3: Option<String>,
    pub product_id_qualifier_4: Option<String>,
    pub product_id_4: Option<String>,
    pub product_id_qualifier_5: Option<String>,
    pub product_id_5: Option<String>,
}

/// Whether one optional field holds exactly the element at a position.
pub open spec fn opt_field_matches(f: &Option<String>, elements: Seq<Seq<char>>, i: int) -> bool {
    match f {
        Some(v) => raw_element(elements, i) == Some(v@),
        None => raw_element(elements, i) is None,
    }
}

/// Whether a structured line-item segment holds exactly a segment's fields.
pub open spec fn po1_matches(s: &Po1Segment, seg: SegmentView) -> bool {
    &&& opt_field_matches(&s.assigned_identification, seg.elements, 0)
    &&& opt_field_matches(&s.quantity_ordered, seg.elements, 1)
    &&& opt_field_matches(&s.unit_or_basis_for_measurement_code, seg.elements, 2)
    &&& opt_field_matches(&s.unit_price, seg.elements, 3)
    &&& opt_field_matches(&s.basis_of_unit_price_code, seg.elements, 4)
    &&& opt_field_matches(&s.product_id_qualifier_1, seg.elements, 5)
    &&& opt_field_matches(&s.product_id_1, seg.elements, 6)
    &&& opt_field_matches(&s.product_id_qualifier_2, seg.elements, 7)
    &&& opt_field_matches(&s.product_id_2, seg.elements, 8)
    &&& opt_field_matches(&s.product_id_qualifier_3, seg.elements, 9)
    &&& opt_field_matches(&s.product_id_3, seg.elements, 10)
    &&& opt_field_matches(&s.product_id_qualifier_4, seg.elements, 11)
    &&& opt_field_matches(&s.product_id_4, seg.elements, 12)
    &&& opt_field_matches(&s.product_id_qualifier_5, seg.elements, 13)
    &&& opt_field_matches(&s.product_id_5, seg.elements, 14)
}

impl Po1Segment {
    /// Build the structured line-item segment from whatever positions are
    /// present.
    pub fn parse_segment(segment: &Segment) -> (r: Result<Po1Segment, EdiError>)
        ensures
            match r {
                Ok(s) => segment@.id == "PO1"@ && po1_matches(&s, segment@),
                Err(_) => segment@.id != "PO1"@,
            },
    {
        if !string_eq_str(&segment.id, "PO1") {
            return Err(
                EdiError::InvalidSegmentFormat(
                    String::from_str("Expected PO1, got ").concat(segment.id.as_str()),
                ),
            );
        }
        Ok(
            Po1Segment {
                assigned_identification: get_raw_element(&segment.elements, 0),
                quantity_ordered: get_raw_element(&segment.elements, 1),
                unit_or_basis_for_measurement_code: get_raw_element(&segment.elements, 2),
                unit_price: get_raw_element(&segment.elements, 3),
                basis_of_unit_price_code: get_raw_element(&segment.elements, 4),
                product_id_qualifier_1: get_raw_element(&segment.elements, 5),
                product_id_1: get_raw_element(&segment.elements, 6),
                product_id_qualifier_2: get_raw_element(&segment.elements, 7),
                product_id_2: get_raw_element(&segment.elements, 8),
                product_id_qualifier_3: get_raw_element(&segment.elements, 9),
                product_id_3: get_raw_element(&segment.elements, 10),
                product_id_qualifier_4: get_raw_element(&segment.elements, 11),
                product_id_4: get_raw_element(&segment.elements, 12),
                product_id_qualifier_5: get_raw_element(&segment.elements, 13),
                product_id_5: get_raw_element(&segment.elements, 14),
            },
        )
    }

    /// A line-item segment carries no further local rule.
    pub fn validate(&self) -> (r: Result<(), EdiError>)
        ensures
            r is Ok,
    {
        Ok(())
    }
}

impl SegmentParser for Po1Segment {
    type Output = Po1Segment;

    fn parse_segment(segment: &Segment) -> Result<Po1Segment, EdiError> {
        Po1Segment::parse_segment(segment)
    }

    fn segment_id() -> &'static str {
        "PO1"
    }

    fn validate(&self) -> Result<(), EdiError> {
        Po1Segment::validate(self)
    }
}

/// CTT - Transaction Totals, every position kept as raw text.
#[derive(Debug, PartialEq)]
pub struct CttSegment {
    pub number_of_line_items: String,
    pub hash_total: Option<String>,
    pub weight: Option<String>,
    pub unit_or_basis_for_measurement_code: Option<String>,
    pub volume: Option<String>,
    pub unit_or_basis_for_measurement_code_2: Option<String>,
    pub description: Option<String>,
}

/// Whether a structured totals segment holds exactly a segment's fields.
pub open spec fn ctt_matches(s: &CttSegment, seg: SegmentView) -> bool {
    &&& seg.elements.len() >= 1
    &&& s.number_of_line_items@ == seg.elements[0]
    &&& opt_field_matches(&s.hash_total, seg.elements, 1)
    &&& opt_field_matches(&s.weight, seg.elements, 2)
    &&& opt_field_matches(&s.unit_or_basis_for_measurement_code, seg.elements, 3)
    &&& opt_field_matches(&s.volume, seg.elements, 4)
    &&& opt_field_matches(&s.unit_or_basis_for_measurement_code_2, seg.elements, 5)
    &&& opt_field_matches(&s.description, seg.elements, 6)
}

impl CttSegment {
    /// Build the structured totals segment; it needs at least the line item
    /// count.
    pub fn parse_segment(segment: &Segment) -> (r: Result<CttSegment, EdiError>)
        ensures
            match r {
                Ok(s) => segment@.id == "CTT"@ && ctt_matches(&s, segment@),
                Err(_) => segment@.id != "CTT"@ || segment@.elements.len() < 1,
            },
    {
        if !string_eq_str(&segment.id, "CTT") {
            return Err(
                EdiError::InvalidSegmentFormat(
                    String::from_str("Expected CTT, got ").concat(segment.id.as_str()),
                ),
            );
        }
        if segment.elements.len() < 1 {
            return Err(
                EdiError::InvalidSegmentFormat(
                    String::from_str("CTT segment requires at least 1 element"),
                ),
            );
        }
        proof {
            assert(segment@.elements[0] == segment.elements@[0]@);
        }
        Ok(
            CttSegment {
                number_of_line_items: segment.elements[0].clone(),
                hash_total: get_raw_element(&segment.elements, 1),
                weight: get_raw_element(&segment.elements, 2),
                unit_or_basis_for_measurement_code: get_raw_element(&segment.elements, 3),
                volume: get_raw_element(&segment.elements, 4),
                unit_or_basis_for_measurement_code_2: get_raw_element(&segment.elements, 5),
                description: get_raw_element(&segment.elements, 6),
            },
        )
    }

    /// A totals segment is sound when its count is a non-zero number.
    pub fn validate(&self) -> (r: Result<(), EdiError>)
        ensures
            r is Ok <==> (self.number_of_line_items@.len() > 0 && all_digits(
                self.number_of_line_items@,
            ) && spec_num(self.number_of_line_items@) <= u32::MAX && spec_num(
                self.number_of_line_items@,
            ) != 0),
    {
        match parse_u32(self.number_of_line_items.as_str()) {
            Some(count) => {
                if count == 0 {
                    return Err(
                        EdiError::ValidationError(
                            String::from_str("Line item count cannot be zero"),
                        ),
                    );
                }
                Ok(())
            },
            None => Err(
                EdiError::ValidationError(String::from_str("Invalid line item count format")),
            ),
        }
    }
}

impl SegmentParser for CttSegment {
    type Output = CttSegment;

    fn parse_segment(segment: &Segment) -> Result<CttSegment, EdiError> {
        CttSegment::parse_segment(segment)
    }

    fn segment_id() -> &'static str {
        "CTT"
    }

    fn validate(&self) -> Result<(), EdiError> {
        CttSegment::validate(self)
    }
}

} // verus!
