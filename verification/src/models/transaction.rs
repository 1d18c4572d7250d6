use crate::models::segment::{Segment, SegmentView};
use crate::utils::{is_decimal, str_is_decimal, string_eq_str};
use vstd::prelude::*;

verus! {

/// The business document type carried by a transaction.
#[derive(Debug, PartialEq)]
pub enum TransactionType {
    Invoice810,
    PurchaseOrder850,
    Unknown(String),
}

/// The mathematical content of a `TransactionType`.
#[verifier::ext_equal]
pub enum TransactionTypeView {
    Invoice810,
    PurchaseOrder850,
    Unknown(Seq<char>),
}

impl View for TransactionType {
    type V = TransactionTypeView;

    open spec fn view(&self) -> TransactionTypeView {
        match self {
            TransactionType::Invoice810 => TransactionTypeView::Invoice810,
            TransactionType::PurchaseOrder850 => TransactionTypeView::PurchaseOrder850,
            TransactionType::Unknown(s) => TransactionTypeView::Unknown(s@),
        }
    }
}

impl Clone for TransactionType {
    fn clone(&self) -> (r: Self)
        ensures
            r@ == self@,
    {
        match self {
            TransactionType::Invoice810 => TransactionType::Invoice810,
            TransactionType::PurchaseOrder850 => TransactionType::PurchaseOrder850,
            TransactionType::Unknown(s) => TransactionType::Unknown(s.clone()),
        }
    }
}

/// The transaction type denoted by a transaction set identifier code.
pub open spec fn spec_type_of(id: Seq<char>) -> TransactionTypeView {
    if id == "810"@ {
        TransactionTypeView::Invoice810
    } else if id == "850"@ {
        TransactionTypeView::PurchaseOrder850
    } else {
        TransactionTypeView::Unknown(id)
    }
}

pub open spec fn is_valid_beg_purpose_code(code: Seq<char>) -> bool {
    code == "00"@ || code == "01"@ || code == "04"@ || code == "05"@ || code == "06"@ || code
        == "07"@
}

pub open spec fn is_valid_n1_entity_code(code: Seq<char>) -> bool {
    code == "ST"@ || code == "BT"@ || code == "SF"@ || code == "BS"@ || code == "BY"@ || code
        == "SE"@ || code == "SU"@
}

/// The diagnostic produced for one segment of a purchase order, or `None`
/// when the segment is acceptable.
pub open spec fn spec_validate_850(seg: SegmentView) -> Option<Seq<char>> {
    if seg.id == "BEG"@ {
        if seg.elements.len() < 3 {
            Some("BEG segment requires at least 3 elements"@)
        } else if !is_valid_beg_purpose_code(seg.elements[0]) {
            Some("Invalid BEG01 purpose code: "@ + seg.elements[0])
        } else {
            None
        }
    } else if seg.id == "PO1"@ {
        if seg.elements.len() < 4 {
            Some("PO1 segment requires at least 4 elements"@)
        } else if !is_decimal(seg.elements[1]) {
            Some("PO102 quantity must be numeric: "@ + seg.elements[1])
        } else {
            None
        }
    } else if seg.id == "N1"@ {
        if seg.elements.len() < 2 {
            Some("N1 segment requires at least 2 elements"@)
        } else if !is_valid_n1_entity_code(seg.elements[0]) {
            Some("Invalid N101 entity code: "@ + seg.elements[0])
        } else {
            None
        }
    } else {
        None
    }
}

/// The diagnostic produced for one segment of an invoice.
pub open spec fn spec_validate_810(seg: SegmentView) -> Option<Seq<char>> {
    if seg.id == "BIG"@ {
        if seg.elements.len() < 2 {
            Some("BIG segment requires at least 2 elements"@)
        } else {
            None
        }
    } else {
        None
    }
}

/// The diagnostic a transaction type produces for one segment.
pub open spec fn spec_validate_typed(t: TransactionTypeView, seg: SegmentView) -> Option<
    Seq<char>,
> {
    match t {
        TransactionTypeView::PurchaseOrder850 => spec_validate_850(seg),
        TransactionTypeView::Invoice810 => spec_validate_810(seg),
        TransactionTypeView::Unknown(_) => None,
    }
}

impl TransactionType {
    pub fn from_id(id: &str) -> (r: Self)
        ensures
            r@ == spec_type_of(id@),
    {
        if crate::utils::str_eq(id, "810") {
            TransactionType::Invoice810
        } else if crate::utils::str_eq(id, "850") {
            TransactionType::PurchaseOrder850
        } else {
            TransactionType::Unknown(String::from_str(id))
        }
    }

    /// The segment identifiers every transaction of this type must carry.
    pub fn required_segments(&self) -> (r: Vec<&str>)
        ensures
            match self@ {
                TransactionTypeView::Invoice810 => r@.len() == 3 && r@[0]@ == "ST"@ && r@[1]@
                    == "BIG"@ && r@[2]@ == "SE"@,
                TransactionTypeView::PurchaseOrder850 => r@.len() == 3 && r@[0]@ == "ST"@ && r@[1]@
                    == "BEG"@ && r@[2]@ == "SE"@,
                TransactionTypeView::Unknown(_) => r@.len() == 2 && r@[0]@ == "ST"@ && r@[1]@
                    == "SE"@,
            },
    {
        match self {
            TransactionType::Invoice810 => vec!["ST", "BIG", "SE"],
            TransactionType::PurchaseOrder850 => vec!["ST", "BEG", "SE"],
            TransactionType::Unknown(_) => vec!["ST", "SE"],
        }
    }

    /// The segment identifiers a transaction of this type may also carry.
    pub fn optional_segments(&self) -> (r: Vec<&str>)
        ensures
            match self@ {
                TransactionTypeView::Invoice810 => r@.len() == 4 && r@[0]@ == "N1"@ && r@[1]@
                    == "IT1"@ && r@[2]@ == "TDS"@ && r@[3]@ == "CTT"@,
                TransactionTypeView::PurchaseOrder850 => r@.len() == 10 && r@[0]@ == "N1"@ && r@[1]@
                    == "PO1"@ && r@[2]@ == "CTT"@ && r@[3]@ == "DTM"@ && r@[4]@ == "REF"@ && r@[5]@
                    == "PER"@ && r@[6]@ == "FOB"@ && r@[7]@ == "ITD"@ && r@[8]@ == "PID"@ && r@[9]@
                    == "SAC"@,
                TransactionTypeView::Unknown(_) => r@.len() == 0,
            },
    {
        match self {
            TransactionType::Invoice810 => vec!["N1", "IT1", "TDS", "CTT"],
            TransactionType::PurchaseOrder850 => vec![
                "N1",
                "PO1",
                "CTT",
                "DTM",
                "REF",
                "PER",
                "FOB",
                "ITD",
                "PID",
                "SAC",
            ],
            TransactionType::Unknown(_) => Vec::new(),
        }
    }

    /// Check one segment against the rules of this transaction type.
    pub fn validate_segment(&self, segment: &Segment) -> (r: Result<(), String>)
        ensures
            match r {
                Ok(_) => spec_validate_typed(self@, segment@) is None,
                Err(m) => spec_validate_typed(self@, segment@) == Some(m@),
            },
    {
        match self {
            TransactionType::PurchaseOrder850 => self.validate_850_segment(segment),
            TransactionType::Invoice810 => self.validate_810_segment(segment),
            TransactionType::Unknown(_) => Ok(()),
        }
    }

    fn validate_850_segment(&self, segment: &Segment) -> (r: Result<(), String>)
        ensures
            match r {
                Ok(_) => spec_validate_850(segment@) is None,
                Err(m) => spec_validate_850(segment@) == Some(m@),
            },
    {
        if string_eq_str(&segment.id, "BEG") {
            if segment.elements.len() < 3 {
                return Err(String::from_str("BEG segment requires at least 3 elements"));
            }
            let purpose_code = &segment.elements[0];
            proof {
                assert(segment@.elements[0] == segment.elements@[0]@);
            }
            if !(string_eq_str(purpose_code, "00") || string_eq_str(purpose_code, "01")
                || string_eq_str(purpose_code, "04") || string_eq_str(purpose_code, "05")
                || string_eq_str(purpose_code, "06") || string_eq_str(purpose_code, "07")) {
                return Err(
                    String::from_str("Invalid BEG01 purpose code: ").concat(purpose_code.as_str()),
                );
            }
            Ok(())
        } else if string_eq_str(&segment.id, "PO1") {
            if segment.elements.len() < 4 {
                return Err(String::from_str("PO1 segment requires at least 4 elements"));
            }
            proof {
                assert(segment@.elements[1] == segment.elements@[1]@);
            }
            if !str_is_decimal(segment.elements[1].as_str()) {
                return Err(
                    String::from_str("PO102 quantity must be numeric: ").concat(
                        segment.elements[1].as_str(),
                    ),
                );
            }
            Ok(())
        } else if string_eq_str(&segment.id, "N1") {
            if segment.elements.len() < 2 {
                return Err(String::from_str("N1 segment requires at least 2 elements"));
            }
            let entity_code = &segment.elements[0];
            proof {
                assert(segment@.elements[0] == segment.elements@[0]@);
            }
            if !(string_eq_str(entity_code, "ST") || string_eq_str(entity_code, "BT")
                || string_eq_str(entity_code, "SF") || string_eq_str(entity_code, "BS")
                || string_eq_str(entity_code, "BY") || string_eq_str(entity_code, "SE")
                || string_eq_str(entity_code, "SU")) {
                return Err(
                    String::from_str("Invalid N101 entity code: ").concat(entity_code.as_str()),
                );
            }
            Ok(())
        } else {
            Ok(())
        }
    }

    fn validate_810_segment(&self, segment: &Segment) -> (r: Result<(), String>)
        ensures
            match r {
                Ok(_) => spec_validate_810(segment@) is None,
                Err(m) => spec_validate_810(segment@) == Some(m@),
            },
    {
        if string_eq_str(&segment.id, "BIG") {
            if segment.elements.len() < 2 {
                return Err(String::from_str("BIG segment requires at least 2 elements"));
            }
            Ok(())
        } else {
            Ok(())
        }
    }

    /// The transaction set identifier code this type stands for.
    pub fn as_str(&self) -> (r: &str)
        ensures
            r@ == self.spec_as_str(),
    {
        match self {
            TransactionType::Invoice810 => "810",
            TransactionType::PurchaseOrder850 => "850",
            TransactionType::Unknown(s) => s.as_str(),
        }
    }

    pub open spec fn spec_as_str(&self) -> Seq<char> {
        match self@ {
            TransactionTypeView::Invoice810 => "810"@,
            TransactionTypeView::PurchaseOrder850 => "850"@,
            TransactionTypeView::Unknown(s) => s,
        }
    }
}

/// One business document: a bounded run of segments with its set identifier
/// and control number.
#[derive(Debug, PartialEq)]
pub struct Transaction {
    pub segments: Vec<Segment>,
    pub transaction_set_id: String,
    pub control_number: String,
    pub transaction_type: TransactionType,
}

/// The mathematical content of a `Transaction`.
#[verifier::ext_equal]
pub struct TransactionView {
    pub segments: Seq<SegmentView>,
    pub transaction_set_id: Seq<char>,
    pub control_number: Seq<char>,
    pub transaction_type: TransactionTypeView,
}

impl View for Transaction {
    type V = TransactionView;

    open spec fn view(&self) -> TransactionView {
        TransactionView {
            segments: self.segments.deep_view(),
            transaction_set_id: self.transaction_set_id@,
            control_number: self.control_number@,
            transaction_type: self.transaction_type@,
        }
    }
}

impl DeepView for Transaction {
    type V = TransactionView;

    open spec fn deep_view(&self) -> TransactionView {
        self.view()
    }
}

impl Transaction {
    /// Build a transaction; its type is derived from the set identifier.
    pub fn new(segments: Vec<Segment>, transaction_set_id: String, control_number: String) -> (r:
        Self)
        ensures
            r@.segments == segments.deep_view(),
            r@.transaction_set_id == transaction_set_id@,
            r@.control_number == control_number@,
            r@.transaction_type == spec_type_of(transaction_set_id@),
    {
        let transaction_type = TransactionType::from_id(transaction_set_id.as_str());
        Transaction { segments, transaction_set_id, control_number, transaction_type }
    }
}

} // verus!
