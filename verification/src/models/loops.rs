use crate::models::segment::{Segment, SegmentView};
use crate::models::transaction::{Transaction, TransactionType, TransactionTypeView};
use crate::utils::string_eq_str;
use vstd::prelude::*;

verus! {

/// One party loop: an anchoring name segment and its continuation segments.
#[derive(Debug)]
pub struct PartyLoop {
    pub n1_segment: Segment,
    pub n2_segments: Vec<Segment>,
    pub n3_segments: Vec<Segment>,
    pub n4_segment: Option<Segment>,
    pub per_segments: Vec<Segment>,
}

/// The mathematical content of a `PartyLoop`.
#[verifier::ext_equal]
pub struct PartyLoopView {
    pub n1_segment: SegmentView,
    pub n2_segments: Seq<SegmentView>,
    pub n3_segments: Seq<SegmentView>,
    pub n4_segment: Option<SegmentView>,
    pub per_segments: Seq<SegmentView>,
}

impl View for PartyLoop {
    type V = PartyLoopView;

    open spec fn view(&self) -> PartyLoopView {
        PartyLoopView {
            n1_segment: self.n1_segment@,
            n2_segments: self.n2_segments.deep_view(),
            n3_segments: self.n3_segments.deep_view(),
            n4_segment: self.n4_segment.deep_view(),
            per_segments: self.per_segments.deep_view(),
        }
    }
}

impl DeepView for PartyLoop {
    type V = PartyLoopView;

    open spec fn deep_view(&self) -> PartyLoopView {
        self.view()
    }
}

/// One line-item loop: an anchoring baseline item segment and its
/// continuation segments.
#[derive(Debug)]
pub struct LineItemLoop {
    pub po1_segment: Segment,
    pub pid_segments: Vec<Segment>,
    pub sac_segments: Vec<Segment>,
    pub dtm_segments: Vec<Segment>,
}

/// The mathematical content of a `LineItemLoop`.
#[verifier::ext_equal]
pub struct LineItemLoopView {
    pub po1_segment: SegmentView,
    pub pid_segments: Seq<SegmentView>,
    pub sac_segments: Seq<SegmentView>,
    pub dtm_segments: Seq<SegmentView>,
}

impl View for LineItemLoop {
    type V = LineItemLoopView;

    open spec fn view(&self) -> LineItemLoopView {
        LineItemLoopView {
            po1_segment: self.po1_segment@,
            pid_segments: self.pid_segments.deep_view(),
            sac_segments: self.sac_segments.deep_view(),
            dtm_segments: self.dtm_segments.deep_view(),
        }
    }
}

impl DeepView for LineItemLoop {
    type V = LineItemLoopView;

    open spec fn deep_view(&self) -> LineItemLoopView {
        self.view()
    }
}

/// A purchase order regrouped into header segments, party loops, line-item
/// loops and summary segments.
#[derive(Debug)]
pub struct PurchaseOrder850 {
    pub transaction_type: TransactionType,
    pub header_segments: Vec<Segment>,
    pub party_loops: Vec<PartyLoop>,
    pub line_item_loops: Vec<LineItemLoop>,
    pub summary_segments: Vec<Segment>,
}

// ---------------------------------------------------------------------------
// The greedy grouping, as one specification
// ---------------------------------------------------------------------------

/// The header phase: everything before the first party or line-item anchor is
/// a header segment, except summary segments, which are set aside.
pub open spec fn hdr_phase(segs: Seq<SegmentView>, i: int) -> (Seq<SegmentView>, Seq<
    SegmentView,
>, int)
    decreases segs.len() - i,
{
    if i < 0 || i >= segs.len() {
        (Seq::empty(), Seq::empty(), i)
    } else if segs[i].id == "N1"@ || segs[i].id == "PO1"@ {
        (Seq::empty(), Seq::empty(), i)
    } else if segs[i].id == "CTT"@ || segs[i].id == "SE"@ {
        let r = hdr_phase(segs, i + 1);
        (r.0, seq![segs[i]] + r.1, r.2)
    } else {
        let r = hdr_phase(segs, i + 1);
        (seq![segs[i]] + r.0, r.1, r.2)
    }
}

pub proof fn lemma_hdr_phase_next(segs: Seq<SegmentView>, i: int)
    requires
        0 <= i <= segs.len(),
    ensures
        i <= hdr_phase(segs, i).2 <= segs.len(),
    decreases segs.len() - i,
{
    if i < segs.len() && !(segs[i].id == "N1"@ || segs[i].id == "PO1"@) {
        lemma_hdr_phase_next(segs, i + 1);
    }
}

/// The continuation of one party loop.
#[verifier::ext_equal]
pub struct PartyTail {
    pub n2_segments: Seq<SegmentView>,
    pub n3_segments: Seq<SegmentView>,
    pub n4_segment: Option<SegmentView>,
    pub per_segments: Seq<SegmentView>,
    pub next: int,
}

/// One party loop's continuation: additional names, addresses, a location
/// (the last one standing) and contacts, consumed until the next anchor or
/// the summary; unrecognized identifiers are consumed and dropped.
pub open spec fn party_tail(segs: Seq<SegmentView>, i: int) -> PartyTail
    decreases segs.len() - i,
{
    if i < 0 || i >= segs.len() || segs[i].id == "N1"@ || segs[i].id == "PO1"@ || segs[i].id
        == "CTT"@ || segs[i].id == "SE"@ {
        PartyTail {
            n2_segments: Seq::empty(),
            n3_segments: Seq::empty(),
            n4_segment: None,
            per_segments: Seq::empty(),
            next: i,
        }
    } else {
        let r = party_tail(segs, i + 1);
        if segs[i].id == "N2"@ {
            PartyTail { n2_segments: seq![segs[i]] + r.n2_segments, ..r }
        } else if segs[i].id == "N3"@ {
            PartyTail { n3_segments: seq![segs[i]] + r.n3_segments, ..r }
        } else if segs[i].id == "N4"@ {
            PartyTail {
                n4_segment: match r.n4_segment {
                    Some(x) => Some(x),
                    None => Some(segs[i]),
                },
                ..r
            }
        } else if segs[i].id == "PER"@ {
            PartyTail { per_segments: seq![segs[i]] + r.per_segments, ..r }
        } else {
            r
        }
    }
}

pub proof fn lemma_party_tail_next(segs: Seq<SegmentView>, i: int)
    requires
        0 <= i <= segs.len(),
    ensures
        i <= party_tail(segs, i).next <= segs.len(),
    decreases segs.len() - i,
{
    if i < segs.len() && !(segs[i].id == "N1"@ || segs[i].id == "PO1"@ || segs[i].id == "CTT"@
        || segs[i].id == "SE"@) {
        lemma_party_tail_next(segs, i + 1);
    }
}

/// The party phase: one loop per name anchor, greedily.
pub open spec fn parties_phase(segs: Seq<SegmentView>, i: int) -> (Seq<PartyLoopView>, int)
    decreases segs.len() - i,
    via parties_phase_decreases
{
    if i < 0 || i >= segs.len() || segs[i].id != "N1"@ {
        (Seq::empty(), i)
    } else {
        let t = party_tail(segs, i + 1);
        let r = parties_phase(segs, t.next);
        (
            seq![
                PartyLoopView {
                    n1_segment: segs[i],
                    n2_segments: t.n2_segments,
                    n3_segments: t.n3_segments,
                    n4_segment: t.n4_segment,
                    per_segments: t.per_segments,
                },
            ] + r.0,
            r.1,
        )
    }
}

#[via_fn]
proof fn parties_phase_decreases(segs: Seq<SegmentView>, i: int) {
    if !(i < 0 || i >= segs.len() || segs[i].id != "N1"@) {
        lemma_party_tail_next(segs, i + 1);
    }
}

pub proof fn lemma_parties_phase_next(segs: Seq<SegmentView>, i: int)
    requires
        0 <= i <= segs.len(),
    ensures
        i <= parties_phase(segs, i).1 <= segs.len(),
    decreases segs.len() - i,
{
    if i < segs.len() && segs[i].id == "N1"@ {
        lemma_party_tail_next(segs, i + 1);
        let t = party_tail(segs, i + 1);
        lemma_parties_phase_next(segs, t.next);
    }
}

/// The continuation of one line-item loop.
#[verifier::ext_equal]
pub struct ItemTail {
    pub pid_segments: Seq<SegmentView>,
    pub sac_segments: Seq<SegmentView>,
    pub dtm_segments: Seq<SegmentView>,
    pub next: int,
}

/// One line-item loop's continuation: descriptions, charges (carrier detail
/// kept with the charges), and dates, consumed until the next anchor or the
/// summary; unrecognized identifiers are consumed and dropped.
pub open spec fn item_tail(segs: Seq<SegmentView>, i: int) -> ItemTail
    decreases segs.len() - i,
{
    if i < 0 || i >= segs.len() || segs[i].id == "PO1"@ || segs[i].id == "CTT"@ || segs[i].id
        == "SE"@ {
        ItemTail {
            pid_segments: Seq::empty(),
            sac_segments: Seq::empty(),
            dtm_segments: Seq::empty(),
            next: i,
        }
    } else {
        let r = item_tail(segs, i + 1);
        if segs[i].id == "PID"@ {
            ItemTail { pid_segments: seq![segs[i]] + r.pid_segments, ..r }
        } else if segs[i].id == "SAC"@ || segs[i].id == "TD5"@ {
            ItemTail { sac_segments: seq![segs[i]] + r.sac_segments, ..r }
        } else if segs[i].id == "DTM"@ {
            ItemTail { dtm_segments: seq![segs[i]] + r.dtm_segments, ..r }
        } else {
            r
        }
    }
}

pub proof fn lemma_item_tail_next(segs: Seq<SegmentView>, i: int)
    requires
        0 <= i <= segs.len(),
    ensures
        i <= item_tail(segs, i).next <= segs.len(),
    decreases segs.len() - i,
{
    if i < segs.len() && !(segs[i].id == "PO1"@ || segs[i].id == "CTT"@ || segs[i].id == "SE"@) {
        lemma_item_tail_next(segs, i + 1);
    }
}

/// The line-item phase: one loop per baseline item anchor, greedily.
pub open spec fn items_phase(segs: Seq<SegmentView>, i: int) -> (Seq<LineItemLoopView>, int)
    decreases segs.len() - i,
    via items_phase_decreases
{
    if i < 0 || i >= segs.len() || segs[i].id != "PO1"@ {
        (Seq::empty(), i)
    } else {
        let t = item_tail(segs, i + 1);
        let r = items_phase(segs, t.next);
        (
            seq![
                LineItemLoopView {
                    po1_segment: segs[i],
                    pid_segments: t.pid_segments,
                    sac_segments: t.sac_segments,
                    dtm_segments: t.dtm_segments,
                },
            ] + r.0,
            r.1,
        )
    }
}

#[via_fn]
proof fn items_phase_decreases(segs: Seq<SegmentView>, i: int) {
    if !(i < 0 || i >= segs.len() || segs[i].id != "PO1"@) {
        lemma_item_tail_next(segs, i + 1);
    }
}

pub proof fn lemma_items_phase_next(segs: Seq<SegmentView>, i: int)
    requires
        0 <= i <= segs.len(),
    ensures
        i <= items_phase(segs, i).1 <= segs.len(),
    decreases segs.len() - i,
{
    if i < segs.len() && segs[i].id == "PO1"@ {
        lemma_item_tail_next(segs, i + 1);
        let t = item_tail(segs, i + 1);
        lemma_items_phase_next(segs, t.next);
    }
}

impl PurchaseOrder850 {
    /// Regroup a purchase-order transaction into loops in one greedy forward
    /// pass: header segments up to the first anchor, then party loops, then
    /// line-item loops, with the remaining segments appended to the summary
    /// set aside during the header phase.  Anything but a purchase order is
    /// rejected.
    pub fn parse_from_transaction(transaction: &Transaction) -> (r: Result<Self, String>)
        ensures
            match r {
                Ok(po) => transaction@.transaction_type is PurchaseOrder850 && ({
                    let segs = transaction@.segments;
                    let h = hdr_phase(segs, 0);
                    let p = parties_phase(segs, h.2);
                    let it = items_phase(segs, p.1);
                    &&& po.transaction_type@ == transaction@.transaction_type
                    &&& po.header_segments.deep_view() == h.0
                    &&& po.party_loops.deep_view() == p.0
                    &&& po.line_item_loops.deep_view() == it.0
                    &&& 0 <= it.1 <= segs.len()
                    &&& po.summary_segments.deep_view() == h.1 + segs.skip(it.1)
                }),
                Err(m) => !(transaction@.transaction_type is PurchaseOrder850) && m@
                    == "Not a valid 850 transaction"@,
            },
    {
        let is_850 = match &transaction.transaction_type {
            TransactionType::PurchaseOrder850 => true,
            _ => false,
        };
        if !is_850 {
            return Err(String::from_str("Not a valid 850 transaction"));
        }
        let ghost segs = transaction@.segments;
        let segments = &transaction.segments;
        let n = segments.len();
        let mut header_segments: Vec<Segment> = Vec::new();
        let mut party_loops: Vec<PartyLoop> = Vec::new();
        let mut line_item_loops: Vec<LineItemLoop> = Vec::new();
        let mut summary_segments: Vec<Segment> = Vec::new();
        let mut i: usize = 0;

        // Header phase.
        let ghost h = hdr_phase(segs, 0);
        proof {
            lemma_hdr_phase_next(segs, 0);
        }
        while i < n && !(string_eq_str(&segments[i].id, "N1") || string_eq_str(
            &segments[i].id,
            "PO1",
        ))
            invariant
                i <= n,
                n == segs.len(),
                segs == transaction@.segments,
                segments == &transaction.segments,
                h == hdr_phase(segs, 0),
                0 <= hdr_phase(segs, i as int).2 <= segs.len(),
                h.0 =~= header_segments.deep_view() + hdr_phase(segs, i as int).0,
                h.1 =~= summary_segments.deep_view() + hdr_phase(segs, i as int).1,
                h.2 == hdr_phase(segs, i as int).2,
            decreases n - i,
        {
            proof {
                assert(segs[i as int] == segments@[i as int]@);
                lemma_hdr_phase_next(segs, i as int + 1);
            }
            if string_eq_str(&segments[i].id, "CTT") || string_eq_str(&segments[i].id, "SE") {
                let ghost prev = summary_segments.deep_view();
                summary_segments.push(segments[i].clone());
                proof {
                    assert(summary_segments.deep_view() =~= prev.push(segs[i as int]));
                }
            } else {
                let ghost prev = header_segments.deep_view();
                header_segments.push(segments[i].clone());
                proof {
                    assert(header_segments.deep_view() =~= prev.push(segs[i as int]));
                }
            }
            i = i + 1;
        }
        proof {
            assert(segs[i as int] == segments@[i as int]@ || i == n);
            assert(hdr_phase(segs, i as int).0 =~= Seq::<SegmentView>::empty());
            assert(hdr_phase(segs, i as int).1 =~= Seq::<SegmentView>::empty());
            assert(h.0 =~= header_segments.deep_view());
            assert(h.1 =~= summary_segments.deep_view());
            assert(h.2 == i as int);
        }

        // Party phase.
        let ghost p = parties_phase(segs, h.2);
        proof {
            lemma_parties_phase_next(segs, i as int);
        }
        while i < n && string_eq_str(&segments[i].id, "N1")
            invariant
                i <= n,
                n == segs.len(),
                segs == transaction@.segments,
                segments == &transaction.segments,
                p == parties_phase(segs, hdr_phase(segs, 0).2),
                0 <= parties_phase(segs, i as int).1 <= segs.len(),
                p.0 =~= party_loops.deep_view() + parties_phase(segs, i as int).0,
                p.1 == parties_phase(segs, i as int).1,
            decreases n - i,
        {
            proof {
                assert(segs[i as int] == segments@[i as int]@);
                lemma_party_tail_next(segs, i as int + 1);
            }
            let ghost tail = party_tail(segs, i as int + 1);
            let n1_segment = segments[i].clone();
            let mut n2_segments: Vec<Segment> = Vec::new();
            let mut n3_segments: Vec<Segment> = Vec::new();
            let mut n4_segment: Option<Segment> = None;
            let mut per_segments: Vec<Segment> = Vec::new();
            let ghost anchor = i as int;
            i = i + 1;
            while i < n && !(string_eq_str(&segments[i].id, "N1") || string_eq_str(
                &segments[i].id,
                "PO1",
            ) || string_eq_str(&segments[i].id, "CTT") || string_eq_str(&segments[i].id, "SE"))
                invariant
                    anchor < i <= n,
                    n == segs.len(),
                    segs == transaction@.segments,
                    segments == &transaction.segments,
                    tail == party_tail(segs, anchor + 1),
                    0 <= party_tail(segs, i as int).next <= segs.len(),
                    tail.n2_segments =~= n2_segments.deep_view() + party_tail(
                        segs,
                        i as int,
                    ).n2_segments,
                    tail.n3_segments =~= n3_segments.deep_view() + party_tail(
                        segs,
                        i as int,
                    ).n3_segments,
                    tail.per_segments =~= per_segments.deep_view() + party_tail(
                        segs,
                        i as int,
                    ).per_segments,
                    tail.n4_segment == (match party_tail(segs, i as int).n4_segment {
                        Some(x) => Some(x),
                        None => n4_segment.deep_view(),
                    }),
                    tail.next == party_tail(segs, i as int).next,
                decreases n - i,
            {
                proof {
                    assert(segs[i as int] == segments@[i as int]@);
                }
                if string_eq_str(&segments[i].id, "N2") {
                    let ghost prev = n2_segments.deep_view();
                    n2_segments.push(segments[i].clone());
                    proof {
                        assert(n2_segments.deep_view() =~= prev.push(segs[i as int]));
                    }
                } else if string_eq_str(&segments[i].id, "N3") {
                    let ghost prev = n3_segments.deep_view();
                    n3_segments.push(segments[i].clone());
                    proof {
                        assert(n3_segments.deep_view() =~= prev.push(segs[i as int]));
                    }
                } else if string_eq_str(&segments[i].id, "N4") {
                    n4_segment = Some(segments[i].clone());
                } else if string_eq_str(&segments[i].id, "PER") {
                    let ghost prev = per_segments.deep_view();
                    per_segments.push(segments[i].clone());
                    proof {
                        assert(per_segments.deep_view() =~= prev.push(segs[i as int]));
                    }
                }
                i = i + 1;
            }
            proof {
                assert(party_tail(segs, i as int).n2_segments =~= Seq::<SegmentView>::empty());
                assert(party_tail(segs, i as int).n3_segments =~= Seq::<SegmentView>::empty());
                assert(party_tail(segs, i as int).per_segments =~= Seq::<SegmentView>::empty());
                assert(party_tail(segs, i as int).n4_segment is None);
                assert(party_tail(segs, i as int).next == i as int);
            }
            let party = PartyLoop { n1_segment, n2_segments, n3_segments, n4_segment, per_segments };
            let ghost prev = party_loops.deep_view();
            let ghost pv = party@;
            party_loops.push(party);
            proof {
                assert(pv =~~= (PartyLoopView {
                    n1_segment: segs[anchor],
                    n2_segments: tail.n2_segments,
                    n3_segments: tail.n3_segments,
                    n4_segment: tail.n4_segment,
                    per_segments: tail.per_segments,
                }));
                assert(party_loops.deep_view() =~= prev.push(pv));
                lemma_parties_phase_next(segs, i as int);
                assert(p.0 =~= party_loops.deep_view() + parties_phase(segs, i as int).0);
            }
        }
        proof {
            assert(parties_phase(segs, i as int).0 =~= Seq::<PartyLoopView>::empty());
            assert(p.0 =~= party_loops.deep_view());
            assert(p.1 == i as int);
        }

        // Line-item phase.
        let ghost it = items_phase(segs, p.1);
        proof {
            lemma_items_phase_next(segs, i as int);
        }
        while i < n && string_eq_str(&segments[i].id, "PO1")
            invariant
                i <= n,
                n == segs.len(),
                segs == transaction@.segments,
                segments == &transaction.segments,
                it == items_phase(segs, parties_phase(segs, hdr_phase(segs, 0).2).1),
                0 <= items_phase(segs, i as int).1 <= segs.len(),
                it.0 =~= line_item_loops.deep_view() + items_phase(segs, i as int).0,
                it.1 == items_phase(segs, i as int).1,
            decreases n - i,
        {
            proof {
                assert(segs[i as int] == segments@[i as int]@);
                lemma_item_tail_next(segs, i as int + 1);
            }
            let ghost tail = item_tail(segs, i as int + 1);
            let po1_segment = segments[i].clone();
            let mut pid_segments: Vec<Segment> = Vec::new();
            let mut sac_segments: Vec<Segment> = Vec::new();
            let mut dtm_segments: Vec<Segment> = Vec::new();
            let ghost anchor = i as int;
            i = i + 1;
            while i < n && !(string_eq_str(&segments[i].id, "PO1") || string_eq_str(
                &segments[i].id,
                "CTT",
            ) || string_eq_str(&segments[i].id, "SE"))
                invariant
                    anchor < i <= n,
                    n == segs.len(),
                    segs == transaction@.segments,
                    segments == &transaction.segments,
                    tail == item_tail(segs, anchor + 1),
                    0 <= item_tail(segs, i as int).next <= segs.len(),
                    tail.pid_segments =~= pid_segments.deep_view() + item_tail(
                        segs,
                        i as int,
                    ).pid_segments,
                    tail.sac_segments =~= sac_segments.deep_view() + item_tail(
                        segs,
                        i as int,
                    ).sac_segments,
                    tail.dtm_segments =~= dtm_segments.deep_view() + item_tail(
                        segs,
                        i as int,
                    ).dtm_segments,
                    tail.next == item_tail(segs, i as int).next,
                decreases n - i,
            {
                proof {
                    assert(segs[i as int] == segments@[i as int]@);
                }
                if string_eq_str(&segments[i].id, "PID") {
                    let ghost prev = pid_segments.deep_view();
                    pid_segments.push(segments[i].clone());
                    proof {
                        assert(pid_segments.deep_view() =~= prev.push(segs[i as int]));
                    }
                } else if string_eq_str(&segments[i].id, "SAC") || string_eq_str(
                    &segments[i].id,
                    "TD5",
                ) {
                    let ghost prev = sac_segments.deep_view();
                    sac_segments.push(segments[i].clone());
                    proof {
                        assert(sac_segments.deep_view() =~= prev.push(segs[i as int]));
                    }
                } else if string_eq_str(&segments[i].id, "DTM") {
                    let ghost prev = dtm_segments.deep_view();
                    dtm_segments.push(segments[i].clone());
                    proof {
                        assert(dtm_segments.deep_view() =~= prev.push(segs[i as int]));
                    }
                }
                i = i + 1;
            }
            proof {
                assert(item_tail(segs, i as int).pid_segments =~= Seq::<SegmentView>::empty());
                assert(item_tail(segs, i as int).sac_segments =~= Seq::<SegmentView>::empty());
                assert(item_tail(segs, i as int).dtm_segments =~= Seq::<SegmentView>::empty());
                assert(item_tail(segs, i as int).next == i as int);
            }
            let item = LineItemLoop { po1_segment, pid_segments, sac_segments, dtm_segments };
            let ghost prev = line_item_loops.deep_view();
            let ghost iv = item@;
            line_item_loops.push(item);
            proof {
                assert(iv =~~= (LineItemLoopView {
                    po1_segment: segs[anchor],
                    pid_segments: tail.pid_segments,
                    sac_segments: tail.sac_segments,
                    dtm_segments: tail.dtm_segments,
                }));
                assert(line_item_loops.deep_view() =~= prev.push(iv));
                lemma_items_phase_next(segs, i as int);
                assert(it.0 =~= line_item_loops.deep_view() + items_phase(segs, i as int).0);
            }
        }
        proof {
            assert(items_phase(segs, i as int).0 =~= Seq::<LineItemLoopView>::empty());
            assert(it.0 =~= line_item_loops.deep_view());
            assert(it.1 == i as int);
        }

        // Whatever remains joins the summary.
        let ghost rest_start = i as int;
        let ghost summary_before = summary_segments.deep_view();
        proof {
            assert(segs.subrange(rest_start, rest_start) =~= Seq::<SegmentView>::empty());
            assert(summary_segments.deep_view() =~= summary_before + segs.subrange(
                rest_start,
                rest_start,
            ));
        }
        while i < n
            invariant
                0 <= rest_start <= i <= n,
                n == segs.len(),
                segs == transaction@.segments,
                segments == &transaction.segments,
                summary_segments.deep_view() =~= summary_before + segs.subrange(
                    rest_start,
                    i as int,
                ),
            decreases n - i,
        {
            proof {
                assert(segs[i as int] == segments@[i as int]@);
            }
            let ghost prev = summary_segments.deep_view();
            summary_segments.push(segments[i].clone());
            proof {
                assert(summary_segments.deep_view() =~= prev.push(segs[i as int]));
                assert(summary_segments.deep_view() =~= summary_before + segs.subrange(
                    rest_start,
                    i as int + 1,
                ));
            }
            i = i + 1;
        }
        proof {
            assert(segs.subrange(rest_start, n as int) =~= segs.skip(rest_start));
            assert(summary_segments.deep_view() =~= hdr_phase(segs, 0).1 + segs.skip(rest_start));
        }
        Ok(
            PurchaseOrder850 {
                transaction_type: transaction.transaction_type.clone(),
                header_segments,
                party_loops,
                line_item_loops,
                summary_segments,
            },
        )
    }

    /// How many line-item loops were found.
    pub fn get_total_line_items(&self) -> (r: usize)
        ensures
            r == self.line_item_loops@.len(),
    {
        self.line_item_loops.len()
    }

    /// The party loops whose anchor names the given entity type, in order.
    pub fn get_parties_by_type(&self, entity_type: &str) -> (r: Vec<&PartyLoop>)
        ensures
            r@.len() <= self.party_loops@.len(),
            forall|k: int|
                0 <= k < r@.len() ==> (#[trigger] r@[k])@.n1_segment.elements.len() > 0
                    && r@[k]@.n1_segment.elements[0] == entity_type@,
    {
        let mut r: Vec<&PartyLoop> = Vec::new();
        let mut i: usize = 0;
        while i < self.party_loops.len()
            invariant
                i <= self.party_loops@.len(),
                r@.len() <= i,
                forall|k: int|
                    0 <= k < r@.len() ==> (#[trigger] r@[k])@.n1_segment.elements.len() > 0
                        && r@[k]@.n1_segment.elements[0] == entity_type@,
            decreases self.party_loops@.len() - i,
        {
            let party = &self.party_loops[i];
            if party.n1_segment.elements.len() > 0 {
                proof {
                    assert(party@.n1_segment.elements[0]
                        == party.n1_segment.elements@[0]@);
                }
                if string_eq_str(&party.n1_segment.elements[0], entity_type) {
                    r.push(party);
                }
            }
            i = i + 1;
        }
        r
    }
}

} // verus!
