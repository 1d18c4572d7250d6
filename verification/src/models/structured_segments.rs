use crate::error::EdiError;
use crate::models::segment::{Segment, SegmentView};
use crate::models::segment_definition::{spec_registry_lookup, standard_entries, X12Version};
use crate::models::segment_validator::{sv_all_errors, SegmentValidationResult, SegmentValidator};
use crate::utils::string_eq_str;
use vstd::prelude::*;

verus! {

/// A segment type with a structured field-level form: conversion from and to
/// the generic `Segment`, and validation against the standard catalog.
pub trait EdiSegment {
    fn segment_id() -> &'static str;

    fn from_segment(segment: &Segment, version: X12Version) -> Result<Self, EdiError> where
        Self: Sized;

    fn to_segment(&self) -> Segment;

    fn validate(&self, version: X12Version) -> SegmentValidationResult;
}

/// Whether a segment passes the standard catalog's accumulating validation
/// for a version.
pub open spec fn passes_catalog(version: X12Version, seg: SegmentView) -> bool {
    match spec_registry_lookup(standard_entries(), version, seg.id) {
        Some(def) => sv_all_errors(def, seg).len() == 0,
        None => false,
    }
}

/// The element at a position, when present and non-empty.
pub open spec fn opt_element(elements: Seq<Seq<char>>, i: int) -> Option<Seq<char>> {
    if 0 <= i < elements.len() && elements[i].len() > 0 {
        Some(elements[i])
    } else {
        None
    }
}

fn get_optional_element(elements: &Vec<String>, index: usize) -> (r: Option<String>)
    ensures
        match r {
            Some(v) => opt_element(elements.deep_view(), index as int) == Some(v@),
            None => opt_element(elements.deep_view(), index as int) is None,
        },
{
    if index < elements.len() {
        proof {
            assert(elements.deep_view()[index as int] == elements@[index as int]@);
        }
        if elements[index].as_str().unicode_len() > 0 {
            Some(elements[index].clone())
        } else {
            None
        }
    } else {
        None
    }
}

/// BEG - Beginning Segment for Purchase Order.
#[derive(Debug, PartialEq)]
pub struct BegSegment {
    pub transaction_set_purpose_code: String,
    pub purchase_order_type_code: String,
    pub purchase_order_number: String,
    pub release_number: Option<String>,
    pub date: String,
}

impl BegSegment {
    /// Build the structured form of a BEG segment; the segment must carry the
    /// right identifier, at least four elements, and pass catalog validation.
    pub fn from_segment(segment: &Segment, version: X12Version) -> (r: Result<Self, EdiError>)
        ensures
            match r {
                Ok(b) => segment@.id == "BEG"@ && segment@.elements.len() >= 4 && passes_catalog(
                    version,
                    segment@,
                ) && b.transaction_set_purpose_code@ == segment@.elements[0]
                    && b.purchase_order_type_code@ == segment@.elements[1]
                    && b.purchase_order_number@ == segment@.elements[2] && (match b.release_number {
                    Some(v) => opt_element(segment@.elements, 3) == Some(v@),
                    None => opt_element(segment@.elements, 3) is None,
                }) && b.date@ == (if segment@.elements.len() > 4 {
                    segment@.elements[4]
                } else {
                    Seq::<char>::empty()
                }),
                Err(_) => segment@.id != "BEG"@ || segment@.elements.len() < 4 || !passes_catalog(
                    version,
                    segment@,
                ),
            },
    {
        if !string_eq_str(&segment.id, "BEG") {
            return Err(
                EdiError::InvalidSegmentFormat(
                    String::from_str("Expected BEG segment, got ").concat(segment.id.as_str()),
                ),
            );
        }
        if segment.elements.len() < 4 {
            return Err(
                EdiError::InvalidSegmentFormat(
                    String::from_str("BEG segment requires at least 4 elements"),
                ),
            );
        }
        let validator = SegmentValidator::new(version);
        let validation_result = validator.validate_segment(segment);
        if !validation_result.is_valid {
            return Err(
                EdiError::InvalidSegmentFormat(
                    String::from_str("BEG segment validation failed"),
                ),
            );
        }
        proof {
            assert(segment@.elements[0] == segment.elements@[0]@);
            assert(segment@.elements[1] == segment.elements@[1]@);
            assert(segment@.elements[2] == segment.elements@[2]@);
        }
        let date = if segment.elements.len() > 4 {
            proof {
                assert(segment@.elements[4] == segment.elements@[4]@);
            }
            segment.elements[4].clone()
        } else {
            String::new()
        };
        Ok(
            BegSegment {
                transaction_set_purpose_code: segment.elements[0].clone(),
                purchase_order_type_code: segment.elements[1].clone(),
                purchase_order_number: segment.elements[2].clone(),
                release_number: get_optional_element(&segment.elements, 3),
                date,
            },
        )
    }

    /// The generic form: the five element values in order, an absent release
    /// number rendered as the empty placeholder.
    pub fn to_segment(&self) -> (r: Segment)
        ensures
            r@.id == "BEG"@,
            r@.elements.len() == 5,
            r@.elements[0] == self.transaction_set_purpose_code@,
            r@.elements[1] == self.purchase_order_type_code@,
            r@.elements[2] == self.purchase_order_number@,
            r@.elements[3] == (match self.release_number {
                Some(v) => v@,
                None => Seq::<char>::empty(),
            }),
            r@.elements[4] == self.date@,
    {
        let release = match &self.release_number {
            Some(v) => v.clone(),
            None => String::new(),
        };
        let elements: Vec<String> = vec![
            self.transaction_set_purpose_code.clone(),
            self.purchase_order_type_code.clone(),
            self.purchase_order_number.clone(),
            release,
            self.date.clone(),
        ];
        let r = Segment { id: String::from_str("BEG"), elements };
        proof {
            assert(r@.elements.len() == 5);
        }
        r
    }

    /// Validate the rendered segment against the standard catalog.
    pub fn validate(&self, version: X12Version) -> SegmentValidationResult {
        let validator = SegmentValidator::new(version);
        validator.validate_segment(&self.to_segment())
    }
}

impl EdiSegment for BegSegment {
    fn segment_id() -> &'static str {
        "BEG"
    }

    fn from_segment(segment: &Segment, version: X12Version) -> Result<Self, EdiError> {
        BegSegment::from_segment(segment, version)
    }

    fn to_segment(&self) -> Segment {
        BegSegment::to_segment(self)
    }

    fn validate(&self, version: X12Version) -> SegmentValidationResult {
        BegSegment::validate(self, version)
    }
}

/// PO1 - Baseline Item Data.  Decimal quantities are carried as their raw
/// text; a value that does not denote a base-10 real is treated as absent.
#[derive(Debug, PartialEq)]
pub struct Po1Segment {
    pub assigned_identification: Option<String>,
    pub quantity_ordered: Option<String>,
    pub unit_of_measurement_code: Option<String>,
    pub unit_price: Option<String>,
    pub basis_of_unit_price_code: Option<String>,
    pub product_service_ids: Vec<ProductServiceId>,
}

/// One qualifier and product identifier pair of a line item.
#[derive(Debug, PartialEq)]
pub struct ProductServiceId {
    pub qualifier: String,
    pub id: String,
}

/// The mathematical content of a `ProductServiceId`.
#[verifier::ext_equal]
pub struct ProductServiceIdView {
    pub qualifier: Seq<char>,
    pub id: Seq<char>,
}

impl View for ProductServiceId {
    type V = ProductServiceIdView;

    open spec fn view(&self) -> ProductServiceIdView {
        ProductServiceIdView { qualifier: self.qualifier@, id: self.id@ }
    }
}

impl DeepView for ProductServiceId {
    type V = ProductServiceIdView;

    open spec fn deep_view(&self) -> ProductServiceIdView {
        self.view()
    }
}

/// The qualifier and identifier pairs found from position five on, two
/// elements at a time; a pair with either half empty is skipped.
pub open spec fn spec_psi_pairs(elements: Seq<Seq<char>>, i: int) -> Seq<ProductServiceIdView>
    decreases elements.len() - i,
{
    if i < 0 || i + 1 >= elements.len() {
        Seq::empty()
    } else {
        (if elements[i].len() > 0 && elements[i + 1].len() > 0 {
            seq![ProductServiceIdView { qualifier: elements[i], id: elements[i + 1] }]
        } else {
            Seq::<ProductServiceIdView>::empty()
        }) + spec_psi_pairs(elements, i + 2)
    }
}

/// An optional decimal element: present, non-empty and well-formed, or
/// treated as absent.
pub open spec fn opt_decimal_element(elements: Seq<Seq<char>>, i: int) -> Option<Seq<char>> {
    match opt_element(elements, i) {
        Some(v) => if crate::utils::is_decimal(v) {
            Some(v)
        } else {
            None
        },
        None => None,
    }
}

fn get_optional_decimal(elements: &Vec<String>, index: usize) -> (r: Option<String>)
    ensures
        match r {
            Some(v) => opt_decimal_element(elements.deep_view(), index as int) == Some(v@),
            None => opt_decimal_element(elements.deep_view(), index as int) is None,
        },
{
    match get_optional_element(elements, index) {
        Some(v) => {
            if crate::utils::str_is_decimal(v.as_str()) {
                Some(v)
            } else {
                None
            }
        },
        None => None,
    }
}

impl Po1Segment {
    /// Build the structured form of a PO1 segment; the segment must carry the
    /// right identifier and pass catalog validation.
    pub fn from_segment(segment: &Segment, version: X12Version) -> (r: Result<Self, EdiError>)
        ensures
            match r {
                Ok(p) => segment@.id == "PO1"@ && passes_catalog(version, segment@) && (match p.assigned_identification {
                    Some(v) => opt_element(segment@.elements, 0) == Some(v@),
                    None => opt_element(segment@.elements, 0) is None,
                }) && (match p.quantity_ordered {
                    Some(v) => opt_decimal_element(segment@.elements, 1) == Some(v@),
                    None => opt_decimal_element(segment@.elements, 1) is None,
                }) && (match p.unit_of_measurement_code {
                    Some(v) => opt_element(segment@.elements, 2) == Some(v@),
                    None => opt_element(segment@.elements, 2) is None,
                }) && (match p.unit_price {
                    Some(v) => opt_decimal_element(segment@.elements, 3) == Some(v@),
                    None => opt_decimal_element(segment@.elements, 3) is None,
                }) && (match p.basis_of_unit_price_code {
                    Some(v) => opt_element(segment@.elements, 4) == Some(v@),
                    None => opt_element(segment@.elements, 4) is None,
                }) && p.product_service_ids.deep_view() == spec_psi_pairs(segment@.elements, 5),
                Err(_) => segment@.id != "PO1"@ || !passes_catalog(version, segment@),
            },
    {
        if !string_eq_str(&segment.id, "PO1") {
            return Err(
                EdiError::InvalidSegmentFormat(
                    String::from_str("Expected PO1 segment, got ").concat(segment.id.as_str()),
                ),
            );
        }
        let validator = SegmentValidator::new(version);
        let validation_result = validator.validate_segment(segment);
        if !validation_result.is_valid {
            return Err(
                EdiError::InvalidSegmentFormat(
                    String::from_str("PO1 segment validation failed"),
                ),
            );
        }
        let mut product_service_ids: Vec<ProductServiceId> = Vec::new();
        let mut i: usize = 5;
        while i < segment.elements.len() && i + 1 < segment.elements.len()
            invariant
                i >= 5,
                i % 2 == 1,
                spec_psi_pairs(segment@.elements, 5) =~= product_service_ids.deep_view()
                    + spec_psi_pairs(segment@.elements, i as int),
        decreases segment.elements@.len() - i,
        {
            let qualifier = get_optional_element(&segment.elements, i);
            let id = get_optional_element(&segment.elements, i + 1);
            match (qualifier, id) {
                (Some(q), Some(p)) => {
                    let ghost prev = product_service_ids.deep_view();
                    let pair = ProductServiceId { qualifier: q, id: p };
                    let ghost pv = pair@;
                    product_service_ids.push(pair);
                    proof {
                        assert(product_service_ids.deep_view() =~= prev.push(pv));
                    }
                },
                _ => {},
            }
            i = i + 2;
        }
        proof {
            assert(spec_psi_pairs(segment@.elements, i as int) =~= Seq::<
                ProductServiceIdView,
            >::empty());
            assert(product_service_ids.deep_view() =~= spec_psi_pairs(segment@.elements, 5));
        }
        Ok(
            Po1Segment {
                assigned_identification: get_optional_element(&segment.elements, 0),
                quantity_ordered: get_optional_decimal(&segment.elements, 1),
                unit_of_measurement_code: get_optional_element(&segment.elements, 2),
                unit_price: get_optional_decimal(&segment.elements, 3),
                basis_of_unit_price_code: get_optional_element(&segment.elements, 4),
                product_service_ids,
            },
        )
    }

    /// The generic form: five positional values, absent ones rendered empty,
    /// followed by the qualifier and identifier pairs.
    pub fn to_segment(&self) -> (r: Segment)
        ensures
            r@.id == "PO1"@,
            r@.elements.len() == 5 + 2 * self.product_service_ids@.len(),
    {
        let mut elements: Vec<String> = Vec::new();
        elements.push(opt_or_empty(&self.assigned_identification));
        elements.push(opt_or_empty(&self.quantity_ordered));
        elements.push(opt_or_empty(&self.unit_of_measurement_code));
        elements.push(opt_or_empty(&self.unit_price));
        elements.push(opt_or_empty(&self.basis_of_unit_price_code));
        let mut k: usize = 0;
        while k < self.product_service_ids.len()
            invariant
                k <= self.product_service_ids@.len(),
                elements@.len() == 5 + 2 * k,
            decreases self.product_service_ids@.len() - k,
        {
            elements.push(self.product_service_ids[k].qualifier.clone());
            elements.push(self.product_service_ids[k].id.clone());
            k = k + 1;
        }
        Segment { id: String::from_str("PO1"), elements }
    }

    /// Validate the rendered segment against the standard catalog.
    pub fn validate(&self, version: X12Version) -> SegmentValidationResult {
        let validator = SegmentValidator::new(version);
        validator.validate_segment(&self.to_segment())
    }
}

fn opt_or_empty(v: &Option<String>) -> (r: String)
    ensures
        r@ == (match v {
            Some(s) => s@,
            None => Seq::<char>::empty(),
        }),
{
    match v {
        Some(s) => s.clone(),
        None => String::new(),
    }
}

impl EdiSegment for Po1Segment {
    fn segment_id() -> &'static str {
        "PO1"
    }

    fn from_segment(segment: &Segment, version: X12Version) -> Result<Self, EdiError> {
        Po1Segment::from_segment(segment, version)
    }

    fn to_segment(&self) -> Segment {
        Po1Segment::to_segment(self)
    }

    fn validate(&self, version: X12Version) -> SegmentValidationResult {
        Po1Segment::validate(self, version)
    }
}

/// N1 - Party Identification.
#[derive(Debug, PartialEq)]
pub struct N1Segment {
    pub entity_identifier_code: String,
    pub name: Option<String>,
    pub identification_code_qualifier: Option<String>,
    pub identification_code: Option<String>,
}

impl N1Segment {
    /// Build the structured form of an N1 segment; the segment must carry the
    /// right identifier, at least one element, and pass catalog validation.
    pub fn from_segment(segment: &Segment, version: X12Version) -> (r: Result<Self, EdiError>)
        ensures
            match r {
                Ok(n) => segment@.id == "N1"@ && segment@.elements.len() >= 1 && passes_catalog(
                    version,
                    segment@,
                ) && n.entity_identifier_code@ == segment@.elements[0] && (match n.name {
                    Some(v) => opt_element(segment@.elements, 1) == Some(v@),
                    None => opt_element(segment@.elements, 1) is None,
                }) && (match n.identification_code_qualifier {
                    Some(v) => opt_element(segment@.elements, 2) == Some(v@),
                    None => opt_element(segment@.elements, 2) is None,
                }) && (match n.identification_code {
                    Some(v) => opt_element(segment@.elements, 3) == Some(v@),
                    None => opt_element(segment@.elements, 3) is None,
                }),
                Err(_) => segment@.id != "N1"@ || segment@.elements.len() < 1 || !passes_catalog(
                    version,
                    segment@,
                ),
            },
    {
        if !string_eq_str(&segment.id, "N1") {
            return Err(
                EdiError::InvalidSegmentFormat(
                    String::from_str("Expected N1 segment, got ").concat(segment.id.as_str()),
                ),
            );
        }
        if segment.elements.len() < 1 {
            return Err(
                EdiError::InvalidSegmentFormat(
                    String::from_str("N1 segment requires at least 1 element"),
                ),
            );
        }
        let validator = SegmentValidator::new(version);
        let validation_result = validator.validate_segment(segment);
        if !validation_result.is_valid {
            return Err(
                EdiError::InvalidSegmentFormat(String::from_str("N1 segment validation failed")),
            );
        }
        proof {
            assert(segment@.elements[0] == segment.elements@[0]@);
        }
        Ok(
            N1Segment {
                entity_identifier_code: segment.elements[0].clone(),
                name: get_optional_element(&segment.elements, 1),
                identification_code_qualifier: get_optional_element(&segment.elements, 2),
                identification_code: get_optional_element(&segment.elements, 3),
            },
        )
    }

    /// The generic form: the four positional values, absent ones rendered
    /// empty.
    pub fn to_segment(&self) -> (r: Segment)
        ensures
            r@.id == "N1"@,
            r@.elements.len() == 4,
            r@.elements[0] == self.entity_identifier_code@,
    {
        let elements: Vec<String> = vec![
            self.entity_identifier_code.clone(),
            opt_or_empty(&self.name),
            opt_or_empty(&self.identification_code_qualifier),
            opt_or_empty(&self.identification_code),
        ];
        let r = Segment { id: String::from_str("N1"), elements };
        proof {
            assert(r@.elements.len() == 4);
            assert(r@.elements[0] == self.entity_identifier_code@);
        }
        r
    }

    /// Validate the rendered segment against the standard catalog.
    pub fn validate(&self, version: X12Version) -> SegmentValidationResult {
        let validator = SegmentValidator::new(version);
        validator.validate_segment(&self.to_segment())
    }
}

impl EdiSegment for N1Segment {
    fn segment_id() -> &'static str {
        "N1"
    }

    fn from_segment(segment: &Segment, version: X12Version) -> Result<Self, EdiError> {
        N1Segment::from_segment(segment, version)
    }

    fn to_segment(&self) -> Segment {
        N1Segment::to_segment(self)
    }

    fn validate(&self, version: X12Version) -> SegmentValidationResult {
        N1Segment::validate(self, version)
    }
}

/// CTT - Transaction Totals.  The hash total is carried as its raw decimal
/// text.
#[derive(Debug, PartialEq)]
pub struct CttSegment {
    pub number_of_line_items: u32,
    pub hash_total: Option<String>,
}

/// REF - Reference Information.
#[derive(Debug, PartialEq)]
pub struct RefSegment {
    pub reference_identification_qualifier: String,
    pub reference_identification: Option<String>,
    pub description: Option<String>,
}

impl CttSegment {
    /// Build the structured form of a CTT segment; the first element must
    /// denote the line item count.
    pub fn from_segment(segment: &Segment, version: X12Version) -> (r: Result<Self, EdiError>)
        ensures
            match r {
                Ok(c) => segment@.id == "CTT"@ && segment@.elements.len() >= 1 && passes_catalog(
                    version,
                    segment@,
                ) && crate::utils::all_digits(segment@.elements[0]) && segment@.elements[0].len()
                    > 0 && c.number_of_line_items == crate::utils::spec_num(segment@.elements[0])
                    && (match c.hash_total {
                    Some(v) => opt_element(segment@.elements, 1) == Some(v@) && crate::utils::is_decimal(
                        v@,
                    ),
                    None => opt_element(segment@.elements, 1) is None || !crate::utils::is_decimal(
                        opt_element(segment@.elements, 1)->Some_0,
                    ),
                }),
                Err(_) => segment@.id != "CTT"@ || segment@.elements.len() < 1 || !passes_catalog(
                    version,
                    segment@,
                ) || !(crate::utils::all_digits(segment@.elements[0]) && segment@.elements[0].len()
                    > 0 && crate::utils::spec_num(segment@.elements[0]) <= u32::MAX) || (
                opt_element(segment@.elements, 1) matches Some(h) && !crate::utils::is_decimal(h)),
            },
    {
        if !string_eq_str(&segment.id, "CTT") {
            return Err(
                EdiError::InvalidSegmentFormat(
                    String::from_str("Expected CTT segment, got ").concat(segment.id.as_str()),
                ),
            );
        }
        if segment.elements.len() < 1 {
            return Err(
                EdiError::InvalidSegmentFormat(
                    String::from_str("CTT segment requires at least 1 element"),
                ),
            );
        }
        let validator = SegmentValidator::new(version);
        let validation_result = validator.validate_segment(segment);
        if !validation_result.is_valid {
            return Err(
                EdiError::InvalidSegmentFormat(String::from_str("CTT segment validation failed")),
            );
        }
        proof {
            assert(segment@.elements[0] == segment.elements@[0]@);
        }
        let number_of_line_items = match crate::utils::parse_u32(segment.elements[0].as_str()) {
            Some(n) => n,
            None => {
                return Err(
                    EdiError::InvalidSegmentFormat(
                        String::from_str("CTT segment first element must be a valid number"),
                    ),
                );
            },
        };
        let hash_total = match get_optional_element(&segment.elements, 1) {
            Some(h) => {
                if crate::utils::str_is_decimal(h.as_str()) {
                    Some(h)
                } else {
                    return Err(
                        EdiError::InvalidSegmentFormat(
                            String::from_str("CTT segment hash total must be a valid number"),
                        ),
                    );
                }
            },
            None => None,
        };
        Ok(CttSegment { number_of_line_items, hash_total })
    }

    /// The generic form: the count, then the hash total when present.
    pub fn to_segment(&self) -> (r: Segment)
        ensures
            r@.id == "CTT"@,
            r@.elements.len() == (if self.hash_total is Some {
                2int
            } else {
                1int
            }),
            r@.elements[0] == crate::utils::spec_dec(self.number_of_line_items as nat),
    {
        let mut elements: Vec<String> = Vec::new();
        elements.push(crate::utils::u32_to_string(self.number_of_line_items));
        match &self.hash_total {
            Some(h) => {
                elements.push(h.clone());
            },
            None => {},
        }
        let r = Segment { id: String::from_str("CTT"), elements };
        proof {
            assert(r@.elements[0] == crate::utils::spec_dec(self.number_of_line_items as nat));
        }
        r
    }

    /// Validate the rendered segment against the standard catalog.
    pub fn validate(&self, version: X12Version) -> SegmentValidationResult {
        let validator = SegmentValidator::new(version);
        validator.validate_segment(&self.to_segment())
    }
}

impl EdiSegment for CttSegment {
    fn segment_id() -> &'static str {
        "CTT"
    }

    fn from_segment(segment: &Segment, version: X12Version) -> Result<Self, EdiError> {
        CttSegment::from_segment(segment, version)
    }

    fn to_segment(&self) -> Segment {
        CttSegment::to_segment(self)
    }

    fn validate(&self, version: X12Version) -> SegmentValidationResult {
        CttSegment::validate(self, version)
    }
}

impl RefSegment {
    /// Build the structured form of a REF segment; the segment must carry the
    /// right identifier, at least one element, and pass catalog validation.
    pub fn from_segment(segment: &Segment, version: X12Version) -> (r: Result<Self, EdiError>)
        ensures
            match r {
                Ok(n) => segment@.id == "REF"@ && segment@.elements.len() >= 1 && passes_catalog(
                    version,
                    segment@,
                ) && n.reference_identification_qualifier@ == segment@.elements[0] && (match n.reference_identification {
                    Some(v) => opt_element(segment@.elements, 1) == Some(v@),
                    None => opt_element(segment@.elements, 1) is None,
                }) && (match n.description {
                    Some(v) => opt_element(segment@.elements, 2) == Some(v@),
                    None => opt_element(segment@.elements, 2) is None,
                }),
                Err(_) => segment@.id != "REF"@ || segment@.elements.len() < 1 || !passes_catalog(
                    version,
                    segment@,
                ),
            },
    {
        if !string_eq_str(&segment.id, "REF") {
            return Err(
                EdiError::InvalidSegmentFormat(
                    String::from_str("Expected REF segment, got ").concat(segment.id.as_str()),
                ),
            );
        }
        if segment.elements.len() < 1 {
            return Err(
                EdiError::InvalidSegmentFormat(
                    String::from_str("REF segment requires at least 1 element"),
                ),
            );
        }
        let validator = SegmentValidator::new(version);
        let validation_result = validator.validate_segment(segment);
        if !validation_result.is_valid {
            return Err(
                EdiError::InvalidSegmentFormat(String::from_str("REF segment validation failed")),
            );
        }
        proof {
            assert(segment@.elements[0] == segment.elements@[0]@);
        }
        Ok(
            RefSegment {
                reference_identification_qualifier: segment.elements[0].clone(),
                reference_identification: get_optional_element(&segment.elements, 1),
                description: get_optional_element(&segment.elements, 2),
            },
        )
    }

    /// The generic form: the three positional values, absent ones rendered
    /// empty.
    pub fn to_segment(&self) -> (r: Segment)
        ensures
            r@.id == "REF"@,
            r@.elements.len() == 3,
            r@.elements[0] == self.reference_identification_qualifier@,
    {
        let elements: Vec<String> = vec![
            self.reference_identification_qualifier.clone(),
            opt_or_empty(&self.reference_identification),
            opt_or_empty(&self.description),
        ];
        let r = Segment { id: String::from_str("REF"), elements };
        proof {
            assert(r@.elements.len() == 3);
            assert(r@.elements[0] == self.reference_identification_qualifier@);
        }
        r
    }

    /// Validate the rendered segment against the standard catalog.
    pub fn validate(&self, version: X12Version) -> SegmentValidationResult {
        let validator = SegmentValidator::new(version);
        validator.validate_segment(&self.to_segment())
    }
}

impl EdiSegment for RefSegment {
    fn segment_id() -> &'static str {
        "REF"
    }

    fn from_segment(segment: &Segment, version: X12Version) -> Result<Self, EdiError> {
        RefSegment::from_segment(segment, version)
    }

    fn to_segment(&self) -> Segment {
        RefSegment::to_segment(self)
    }

    fn validate(&self, version: X12Version) -> SegmentValidationResult {
        RefSegment::validate(self, version)
    }
}

} // verus!
