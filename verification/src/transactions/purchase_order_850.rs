use crate::error::EdiError;
use crate::models::segment::{Segment, SegmentView};
use crate::models::segment_validator::count_segments_with_id;
use crate::models::transaction::Transaction;
use crate::segments::common::{n1_matches, N1Segment};
use crate::segments::control::{raw_element, st_matches, StSegment};
use crate::segments::purchase_order::{beg_matches, ctt_matches, po1_matches, BegSegment,
    CttSegment, Po1Segment};
use crate::segments::SegmentParser;
use crate::transactions::TransactionParser;
use crate::utils::{
    all_digits, parse_usize, spec_dec, spec_num, spec_trim, string_eq_str, trim_whitespace,
    usize_to_string,
};
use vstd::prelude::*;

verus! {

/// A complete purchase order document: its envelope, beginning segment,
/// parties, line items, and optional totals and trailer.
#[derive(Debug, PartialEq)]
pub struct PurchaseOrder850 {
    pub header: StSegment,
    pub beginning_segment: BegSegment,
    pub parties: Vec<N1Segment>,
    pub line_items: Vec<Po1Segment>,
    pub totals: Option<CttSegment>,
    pub trailer: Option<SeSegment>,
}

/// SE - Transaction Set Trailer.
#[derive(Debug, PartialEq)]
pub struct SeSegment {
    pub number_of_included_segments: String,
    pub transaction_set_control_number: String,
}

/// Whether a structured trailer holds exactly a segment's fields.
pub open spec fn se_matches(s: &SeSegment, seg: SegmentView) -> bool {
    &&& seg.elements.len() >= 2
    &&& s.number_of_included_segments@ == seg.elements[0]
    &&& s.transaction_set_control_number@ == seg.elements[1]
}

impl SeSegment {
    /// Build the structured trailer from a segment with at least two
    /// elements.
    pub fn parse_segment(segment: &Segment) -> (r: Result<SeSegment, EdiError>)
        ensures
            match r {
                Ok(s) => segment@.id == "SE"@ && se_matches(&s, segment@),
                Err(_) => segment@.id != "SE"@ || segment@.elements.len() < 2,
            },
    {
        if !string_eq_str(&segment.id, "SE") {
            return Err(
                EdiError::InvalidSegmentFormat(
                    String::from_str("Expected SE, got ").concat(segment.id.as_str()),
                ),
            );
        }
        if segment.elements.len() < 2 {
            return Err(
                EdiError::InvalidSegmentFormat(String::from_str("SE segment requires 2 elements")),
            );
        }
        proof {
            assert(segment@.elements[0] == segment.elements@[0]@);
            assert(segment@.elements[1] == segment.elements@[1]@);
        }
        Ok(
            SeSegment {
                number_of_included_segments: segment.elements[0].clone(),
                transaction_set_control_number: segment.elements[1].clone(),
            },
        )
    }

    /// A trailer is sound when its control number is not blank.
    pub fn validate(&self) -> (r: Result<(), EdiError>)
        ensures
            r is Ok <==> spec_trim(self.transaction_set_control_number@).len() > 0,
            r matches Err(e) ==> e matches EdiError::ValidationError(m) && m@
                == "SE control number cannot be empty"@,
    {
        if trim_whitespace(self.transaction_set_control_number.as_str()).as_str().unicode_len()
            == 0 {
            return Err(
                EdiError::ValidationError(String::from_str("SE control number cannot be empty")),
            );
        }
        Ok(())
    }
}

impl SegmentParser for SeSegment {
    type Output = SeSegment;

    fn parse_segment(segment: &Segment) -> Result<SeSegment, EdiError> {
        SeSegment::parse_segment(segment)
    }

    fn segment_id() -> &'static str {
        "SE"
    }

    fn validate(&self) -> Result<(), EdiError> {
        SeSegment::validate(self)
    }
}

/// The k-th segment with a given identifier, counting from the front.
pub open spec fn nth_with_id(segs: Seq<SegmentView>, id: Seq<char>, k: int) -> SegmentView
    decreases segs.len(),
{
    if segs.len() == 0 {
        SegmentView { id: Seq::empty(), elements: Seq::empty() }
    } else if segs.last().id == id && k == count_segments_with_id(segs.drop_last(), id) {
        segs.last()
    } else {
        nth_with_id(segs.drop_last(), id, k)
    }
}

/// Whether one segment can be taken up by the purchase-order fold: the
/// segments it recognizes need their fixed leading elements.
pub open spec fn seg_parses_850(seg: SegmentView) -> bool {
    if seg.id == "ST"@ {
        seg.elements.len() >= 2
    } else if seg.id == "BEG"@ {
        seg.elements.len() >= 5
    } else if seg.id == "N1"@ {
        seg.elements.len() >= 1
    } else if seg.id == "CTT"@ {
        seg.elements.len() >= 1
    } else if seg.id == "SE"@ {
        seg.elements.len() >= 2
    } else {
        true
    }
}

proof fn lemma_850_ids_distinct()
    ensures
        "ST"@ != "BEG"@ && "ST"@ != "N1"@ && "ST"@ != "PO1"@ && "ST"@ != "CTT"@ && "ST"@ != "SE"@,
        "BEG"@ != "N1"@ && "BEG"@ != "PO1"@ && "BEG"@ != "CTT"@ && "BEG"@ != "SE"@,
        "N1"@ != "PO1"@ && "N1"@ != "CTT"@ && "N1"@ != "SE"@,
        "PO1"@ != "CTT"@ && "PO1"@ != "SE"@,
        "CTT"@ != "SE"@,
{
    reveal_strlit("ST");
    reveal_strlit("BEG");
    reveal_strlit("N1");
    reveal_strlit("PO1");
    reveal_strlit("CTT");
    reveal_strlit("SE");
    assert("ST"@.len() == 2 && "BEG"@.len() == 3 && "N1"@.len() == 2 && "PO1"@.len() == 3 && "CTT"@.len()
        == 3 && "SE"@.len() == 2);
    assert("ST"@[0] == 'S' && "N1"@[0] == 'N' && "SE"@[1] == 'E' && "ST"@[1] == 'T');
    assert("BEG"@[0] == 'B' && "PO1"@[0] == 'P' && "CTT"@[0] == 'C');
}

/// The first diagnostic of a purchase order's business rules, or `None` when
/// it passes: non-blank control numbers and order number, matching header and
/// trailer control numbers, a sound line item count that equals the number of
/// line items, and non-blank party identifiers.
pub open spec fn spec_po850_diag(po: &PurchaseOrder850) -> Option<Seq<char>> {
    if spec_trim(po.header.transaction_set_control_number@).len() == 0 {
        Some("ST control number cannot be empty"@)
    } else if spec_trim(po.beginning_segment.purchase_order_number@).len() == 0 {
        Some("Purchase order number cannot be empty"@)
    } else if po.trailer is Some && spec_trim(
        po.trailer->Some_0.transaction_set_control_number@,
    ).len() == 0 {
        Some("SE control number cannot be empty"@)
    } else if po.trailer is Some && po.header.transaction_set_control_number@
        != po.trailer->Some_0.transaction_set_control_number@ {
        Some("ST and SE control numbers must match"@)
    } else if po.totals is Some && !(po.totals->Some_0.number_of_line_items@.len() > 0
        && all_digits(po.totals->Some_0.number_of_line_items@) && spec_num(
        po.totals->Some_0.number_of_line_items@,
    ) <= u32::MAX) {
        Some("Invalid line item count format"@)
    } else if po.totals is Some && spec_num(po.totals->Some_0.number_of_line_items@) == 0 {
        Some("Line item count cannot be zero"@)
    } else if po.totals is Some && spec_num(po.totals->Some_0.number_of_line_items@)
        != po.line_items@.len() {
        Some(
            "Expected "@ + spec_dec(spec_num(po.totals->Some_0.number_of_line_items@))
                + " line items, found "@ + spec_dec(po.line_items@.len()),
        )
    } else if exists|j: int|
        0 <= j < po.parties@.len() && spec_trim(
            (#[trigger] po.parties@[j]).entity_identifier_code@,
        ).len() == 0 {
        Some("Entity identifier code cannot be empty"@)
    } else {
        None
    }
}

impl PurchaseOrder850 {
    /// Fold a purchase-order transaction's segments into the document form:
    /// the last header, beginning segment, totals and trailer win; parties
    /// and line items are collected in order; unrecognized segments are
    /// ignored.  Succeeds exactly when the transaction is a purchase order,
    /// every recognized segment carries its fixed leading elements, and both
    /// a header and a beginning segment are present.
    pub fn parse_transaction(transaction: &Transaction) -> (r: Result<PurchaseOrder850, EdiError>)
        ensures
            ({
                let segs = transaction@.segments;
                match r {
                    Ok(po) => {
                        &&& transaction@.transaction_set_id == "850"@
                        &&& (forall|k: int|
                            0 <= k < segs.len() ==> seg_parses_850(#[trigger] segs[k]))
                        &&& count_segments_with_id(segs, "ST"@) > 0
                        &&& count_segments_with_id(segs, "BEG"@) > 0
                        &&& st_matches(
                            &po.header,
                            nth_with_id(segs, "ST"@, count_segments_with_id(segs, "ST"@) - 1),
                        )
                        &&& beg_matches(
                            &po.beginning_segment,
                            nth_with_id(segs, "BEG"@, count_segments_with_id(segs, "BEG"@) - 1),
                        )
                        &&& po.parties@.len() == count_segments_with_id(segs, "N1"@)
                        &&& (forall|j: int|
                            0 <= j < po.parties@.len() ==> n1_matches(
                                &(#[trigger] po.parties@[j]),
                                nth_with_id(segs, "N1"@, j),
                            ))
                        &&& po.line_items@.len() == count_segments_with_id(segs, "PO1"@)
                        &&& (forall|j: int|
                            0 <= j < po.line_items@.len() ==> po1_matches(
                                &(#[trigger] po.line_items@[j]),
                                nth_with_id(segs, "PO1"@, j),
                            ))
                        &&& (match po.totals {
                            Some(c) => count_segments_with_id(segs, "CTT"@) > 0 && ctt_matches(
                                &c,
                                nth_with_id(segs, "CTT"@, count_segments_with_id(segs, "CTT"@) - 1),
                            ),
                            None => count_segments_with_id(segs, "CTT"@) == 0,
                        })
                        &&& (match po.trailer {
                            Some(t) => count_segments_with_id(segs, "SE"@) > 0 && se_matches(
                                &t,
                                nth_with_id(segs, "SE"@, count_segments_with_id(segs, "SE"@) - 1),
                            ),
                            None => count_segments_with_id(segs, "SE"@) == 0,
                        })
                    },
                    Err(_) => !(transaction@.transaction_set_id == "850"@ && (forall|k: int|
                        0 <= k < segs.len() ==> seg_parses_850(#[trigger] segs[k]))
                        && count_segments_with_id(segs, "ST"@) > 0 && count_segments_with_id(
                        segs,
                        "BEG"@,
                    ) > 0),
                }
            }),
    {
        if !string_eq_str(&transaction.transaction_set_id, "850") {
            return Err(
                EdiError::UnsupportedTransactionType(transaction.transaction_set_id.clone()),
            );
        }
        let ghost segs = transaction@.segments;
        let segments = &transaction.segments;
        let n = segments.len();
        let mut header: Option<StSegment> = None;
        let mut beginning_segment: Option<BegSegment> = None;
        let mut parties: Vec<N1Segment> = Vec::new();
        let mut line_items: Vec<Po1Segment> = Vec::new();
        let mut totals: Option<CttSegment> = None;
        let mut trailer: Option<SeSegment> = None;
        let mut i: usize = 0;
        while i < n
            invariant
                i <= n,
                n == segs.len(),
                segs == transaction@.segments,
                segments == &transaction.segments,
                forall|k: int| 0 <= k < i ==> seg_parses_850(#[trigger] segs[k]),
                (match header {
                    Some(s) => count_segments_with_id(segs.take(i as int), "ST"@) > 0 && st_matches(
                        &s,
                        nth_with_id(
                            segs.take(i as int),
                            "ST"@,
                            count_segments_with_id(segs.take(i as int), "ST"@) - 1,
                        ),
                    ),
                    None => count_segments_with_id(segs.take(i as int), "ST"@) == 0,
                }),
                (match beginning_segment {
                    Some(s) => count_segments_with_id(segs.take(i as int), "BEG"@) > 0
                        && beg_matches(
                        &s,
                        nth_with_id(
                            segs.take(i as int),
                            "BEG"@,
                            count_segments_with_id(segs.take(i as int), "BEG"@) - 1,
                        ),
                    ),
                    None => count_segments_with_id(segs.take(i as int), "BEG"@) == 0,
                }),
                parties@.len() == count_segments_with_id(segs.take(i as int), "N1"@),
                forall|j: int|
                    0 <= j < parties@.len() ==> n1_matches(
                        &(#[trigger] parties@[j]),
                        nth_with_id(segs.take(i as int), "N1"@, j),
                    ),
                line_items@.len() == count_segments_with_id(segs.take(i as int), "PO1"@),
                forall|j: int|
                    0 <= j < line_items@.len() ==> po1_matches(
                        &(#[trigger] line_items@[j]),
                        nth_with_id(segs.take(i as int), "PO1"@, j),
                    ),
                (match totals {
                    Some(c) => count_segments_with_id(segs.take(i as int), "CTT"@) > 0
                        && ctt_matches(
                        &c,
                        nth_with_id(
                            segs.take(i as int),
                            "CTT"@,
                            count_segments_with_id(segs.take(i as int), "CTT"@) - 1,
                        ),
                    ),
                    None => count_segments_with_id(segs.take(i as int), "CTT"@) == 0,
                }),
                (match trailer {
                    Some(t) => count_segments_with_id(segs.take(i as int), "SE"@) > 0 && se_matches(
                        &t,
                        nth_with_id(
                            segs.take(i as int),
                            "SE"@,
                            count_segments_with_id(segs.take(i as int), "SE"@) - 1,
                        ),
                    ),
                    None => count_segments_with_id(segs.take(i as int), "SE"@) == 0,
                }),
            decreases n - i,
        {
            let segment = &segments[i];
            proof {
                lemma_850_ids_distinct();
                assert(segs[i as int] == segments@[i as int]@);
                assert(segs.take(i as int + 1).drop_last() =~= segs.take(i as int));
                assert(segs.take(i as int + 1).last() == segs[i as int]);
            }
            if string_eq_str(&segment.id, "ST") {
                match StSegment::parse_segment(segment) {
                    Ok(s) => {
                        proof {
                            assert(st_matches(&s, segs[i as int]));
                        }
                        header = Some(s);
                    },
                    Err(e) => {
                        proof {
                            assert(!seg_parses_850(segs[i as int]));
                        }
                        return Err(e);
                    },
                }
            } else if string_eq_str(&segment.id, "BEG") {
                match BegSegment::parse_segment(segment) {
                    Ok(s) => {
                        beginning_segment = Some(s);
                    },
                    Err(e) => {
                        proof {
                            assert(!seg_parses_850(segs[i as int]));
                        }
                        return Err(e);
                    },
                }
            } else if string_eq_str(&segment.id, "N1") {
                match N1Segment::parse_segment(segment) {
                    Ok(s) => {
                        parties.push(s);
                    },
                    Err(e) => {
                        proof {
                            assert(!seg_parses_850(segs[i as int]));
                        }
                        return Err(e);
                    },
                }
            } else if string_eq_str(&segment.id, "PO1") {
                match Po1Segment::parse_segment(segment) {
                    Ok(s) => {
                        line_items.push(s);
                    },
                    Err(e) => {
                        proof {
                            assert(false);
                        }
                        return Err(e);
                    },
                }
            } else if string_eq_str(&segment.id, "CTT") {
                match CttSegment::parse_segment(segment) {
                    Ok(s) => {
                        totals = Some(s);
                    },
                    Err(e) => {
                        proof {
                            assert(!seg_parses_850(segs[i as int]));
                        }
                        return Err(e);
                    },
                }
            } else if string_eq_str(&segment.id, "SE") {
                match SeSegment::parse_segment(segment) {
                    Ok(s) => {
                        trailer = Some(s);
                    },
                    Err(e) => {
                        proof {
                            assert(!seg_parses_850(segs[i as int]));
                        }
                        return Err(e);
                    },
                }
            }
            i = i + 1;
        }
        proof {
            assert(segs.take(n as int) =~= segs);
        }
        let header = match header {
            Some(h) => h,
            None => {
                return Err(EdiError::MissingRequiredSegment(String::from_str("ST")));
            },
        };
        let beginning_segment = match beginning_segment {
            Some(b) => b,
            None => {
                return Err(EdiError::MissingRequiredSegment(String::from_str("BEG")));
            },
        };
        Ok(PurchaseOrder850 { header, beginning_segment, parties, line_items, totals, trailer })
    }

    /// Check the document's business rules in order, reporting the first
    /// violation: control numbers and the order number must not be blank,
    /// header and trailer control numbers must agree, and a declared line
    /// item count must equal the number of line-item loops actually present.
    pub fn validate(&self) -> (r: Result<(), EdiError>)
        ensures
            match r {
                Ok(_) => spec_po850_diag(self) is None,
                Err(e) => e matches EdiError::ValidationError(m) && spec_po850_diag(self) == Some(
                    m@,
                ),
            },
    {
        match self.header.validate() {
            Ok(_) => {},
            Err(e) => {
                return Err(e);
            },
        }
        match self.beginning_segment.validate() {
            Ok(_) => {},
            Err(e) => {
                return Err(e);
            },
        }
        match &self.trailer {
            Some(trailer) => {
                match trailer.validate() {
                    Ok(_) => {},
                    Err(e) => {
                        return Err(e);
                    },
                }
                if !(self.header.transaction_set_control_number
                    == trailer.transaction_set_control_number) {
                    return Err(
                        EdiError::ValidationError(
                            String::from_str("ST and SE control numbers must match"),
                        ),
                    );
                }
            },
            None => {},
        }
        match &self.totals {
            Some(totals) => {
                let expected_count = match parse_usize(totals.number_of_line_items.as_str()) {
                    Some(c) => c,
                    None => {
                        return Err(
                            EdiError::ValidationError(
                                String::from_str("Invalid line item count format"),
                            ),
                        );
                    },
                };
                if expected_count > u32::MAX as usize {
                    return Err(
                        EdiError::ValidationError(
                            String::from_str("Invalid line item count format"),
                        ),
                    );
                }
                if expected_count == 0 {
                    return Err(
                        EdiError::ValidationError(String::from_str("Line item count cannot be zero")),
                    );
                }
                if expected_count != self.line_items.len() {
                    return Err(
                        EdiError::ValidationError(
                            String::from_str("Expected ").concat(
                                usize_to_string(expected_count).as_str(),
                            ).concat(" line items, found ").concat(
                                usize_to_string(self.line_items.len()).as_str(),
                            ),
                        ),
                    );
                }
            },
            None => {},
        }
        let mut j: usize = 0;
        while j < self.parties.len()
            invariant
                j <= self.parties@.len(),
                forall|k: int|
                    0 <= k < j ==> spec_trim(
                        (#[trigger] self.parties@[k]).entity_identifier_code@,
                    ).len() > 0,
                spec_trim(self.header.transaction_set_control_number@).len() > 0,
                spec_trim(self.beginning_segment.purchase_order_number@).len() > 0,
                self.trailer is Some ==> spec_trim(
                    self.trailer->Some_0.transaction_set_control_number@,
                ).len() > 0 && self.header.transaction_set_control_number@
                    == self.trailer->Some_0.transaction_set_control_number@,
                self.totals is Some ==> (self.totals->Some_0.number_of_line_items@.len() > 0
                    && all_digits(self.totals->Some_0.number_of_line_items@) && spec_num(
                    self.totals->Some_0.number_of_line_items@,
                ) <= u32::MAX && spec_num(self.totals->Some_0.number_of_line_items@) != 0
                    && spec_num(self.totals->Some_0.number_of_line_items@)
                    == self.line_items@.len()),
        decreases self.parties@.len() - j,
        {
            match self.parties[j].validate() {
                Ok(_) => {},
                Err(e) => {
                    proof {
                        assert(spec_trim(
                            self.parties@[j as int].entity_identifier_code@,
                        ).len() == 0);
                    }
                    return Err(e);
                },
            }
            j = j + 1;
        }
        Ok(())
    }

    /// The purchase order number.
    pub fn purchase_order_number(&self) -> (r: &str)
        ensures
            r@ == self.beginning_segment.purchase_order_number@,
    {
        self.beginning_segment.purchase_order_number.as_str()
    }

    /// The first buying party.
    pub fn buyer(&self) -> (r: Option<&N1Segment>)
        ensures
            match r {
                Some(p) => exists|k: int|
                    0 <= k < self.parties@.len() && (#[trigger] self.parties@[k]).entity_identifier_code@
                        == "BY"@ && p == &self.parties@[k],
                None => forall|k: int|
                    0 <= k < self.parties@.len()
                        ==> (#[trigger] self.parties@[k]).entity_identifier_code@ != "BY"@,
            },
    {
        self.party_with_code("BY")
    }

    /// The first ship-to party.
    pub fn ship_to(&self) -> (r: Option<&N1Segment>)
        ensures
            match r {
                Some(p) => exists|k: int|
                    0 <= k < self.parties@.len() && (#[trigger] self.parties@[k]).entity_identifier_code@
                        == "ST"@ && p == &self.parties@[k],
                None => forall|k: int|
                    0 <= k < self.parties@.len()
                        ==> (#[trigger] self.parties@[k]).entity_identifier_code@ != "ST"@,
            },
    {
        self.party_with_code("ST")
    }

    /// The first vendor party.
    pub fn vendor(&self) -> (r: Option<&N1Segment>)
        ensures
            match r {
                Some(p) => exists|k: int|
                    0 <= k < self.parties@.len() && (#[trigger] self.parties@[k]).entity_identifier_code@
                        == "VN"@ && p == &self.parties@[k],
                None => forall|k: int|
                    0 <= k < self.parties@.len()
                        ==> (#[trigger] self.parties@[k]).entity_identifier_code@ != "VN"@,
            },
    {
        self.party_with_code("VN")
    }

    fn party_with_code(&self, code: &str) -> (r: Option<&N1Segment>)
        ensures
            match r {
                Some(p) => exists|k: int|
                    0 <= k < self.parties@.len() && (#[trigger] self.parties@[k]).entity_identifier_code@
                        == code@ && p == &self.parties@[k],
                None => forall|k: int|
                    0 <= k < self.parties@.len()
                        ==> (#[trigger] self.parties@[k]).entity_identifier_code@ != code@,
            },
    {
        let mut k: usize = 0;
        while k < self.parties.len()
            invariant
                k <= self.parties@.len(),
                forall|t: int|
                    0 <= t < k ==> (#[trigger] self.parties@[t]).entity_identifier_code@ != code@,
            decreases self.parties@.len() - k,
        {
            if string_eq_str(&self.parties[k].entity_identifier_code, code) {
                return Some(&self.parties[k]);
            }
            k = k + 1;
        }
        None
    }
}

impl TransactionParser for PurchaseOrder850 {
    type Output = PurchaseOrder850;

    fn parse_transaction(transaction: &Transaction) -> Result<PurchaseOrder850, EdiError> {
        PurchaseOrder850::parse_transaction(transaction)
    }

    fn validate(&self) -> Result<(), EdiError> {
        PurchaseOrder850::validate(self)
    }

    fn transaction_type() -> &'static str {
        "850"
    }
}

} // verus!
