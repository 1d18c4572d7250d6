use crate::models::segment::{Segment, SegmentView};
use crate::models::segment_validator::count_segments_with_id;
use crate::models::transaction::Transaction;
use crate::utils::{spec_dec, spec_trim, string_eq_str, trim_whitespace, u32_to_string,
    usize_to_string};
use crate::validation::schema::{
    elem_idx, guide_idx, lemma_guide_idx_bounds, spec_value_msgs, DataType,
    EdiSchema, ElementDefinition, ElementUsage, GuideElementView, GuideSegmentView,
    LoopDefinition, SegmentDefinition, SegmentUsage,
};
use crate::validation::{ValidationError, ValidationErrorType, ValidationErrorView,
    ValidationResult, ValidationWarning, ValidationWarningView};
use vstd::prelude::*;

verus! {

/// Checks transactions against an implementation-guide schema, accumulating
/// every violation.
pub struct EdiValidator {
    schema: EdiSchema,
}

pub open spec fn verr(
    segment_id: Seq<char>,
    position: Option<usize>,
    error_type: ValidationErrorType,
    message: Seq<char>,
) -> ValidationErrorView {
    ValidationErrorView { segment_id, element_position: position, error_type, message }
}

pub open spec fn vwarn(
    segment_id: Seq<char>,
    position: Option<usize>,
    message: Seq<char>,
) -> ValidationWarningView {
    ValidationWarningView { segment_id, element_position: position, message }
}

/// Missing-required-element errors of one segment, in guide order.
pub open spec fn req_elem_errors(def: GuideSegmentView, seg: SegmentView, n: int) -> Seq<
    ValidationErrorView,
>
    decreases n,
{
    if n <= 0 {
        Seq::empty()
    } else {
        req_elem_errors(def, seg, n - 1) + ({
            let e = def.elements[n - 1];
            let idx = e.position as int - 1;
            if e.usage == ElementUsage::Required && (idx < 0 || idx >= seg.elements.len()
                || spec_trim(seg.elements[idx]).len() == 0) {
                seq![
                    verr(
                        seg.id,
                        Some(e.position as usize),
                        ValidationErrorType::MissingRequiredElement,
                        "Required element at position "@ + spec_dec(e.position as nat)
                            + " is missing or empty"@,
                    ),
                ]
            } else {
                Seq::<ValidationErrorView>::empty()
            }
        })
    }
}

/// Format errors of one segment's present element values, position by
/// position.
pub open spec fn value_elem_errors(def: GuideSegmentView, seg: SegmentView, n: int) -> Seq<
    ValidationErrorView,
>
    decreases n,
{
    if n <= 0 {
        Seq::empty()
    } else {
        value_elem_errors(def, seg, n - 1) + ({
            let i = n - 1;
            let position = (i + 1) as u32;
            let k = elem_idx(def.elements, position);
            if k < def.elements.len() && spec_trim(seg.elements[i]).len() > 0 {
                let msgs = spec_value_msgs(def.elements[k], seg.elements[i]);
                Seq::new(
                    msgs.len(),
                    |t: int|
                        verr(
                            seg.id,
                            Some(position as usize),
                            ValidationErrorType::InvalidElementFormat,
                            msgs[t],
                        ),
                )
            } else {
                Seq::<ValidationErrorView>::empty()
            }
        })
    }
}

/// Warnings of one segment: values at positions the guide does not define.
pub open spec fn value_elem_warnings(def: GuideSegmentView, seg: SegmentView, n: int) -> Seq<
    ValidationWarningView,
>
    decreases n,
{
    if n <= 0 {
        Seq::empty()
    } else {
        value_elem_warnings(def, seg, n - 1) + ({
            let i = n - 1;
            let position = (i + 1) as u32;
            let k = elem_idx(def.elements, position);
            if k == def.elements.len() && spec_trim(seg.elements[i]).len() > 0 {
                seq![
                    vwarn(
                        seg.id,
                        Some(position as usize),
                        "Element at position "@ + spec_dec(position as nat)
                            + " not defined in schema"@,
                    ),
                ]
            } else {
                Seq::<ValidationWarningView>::empty()
            }
        })
    }
}

/// Every error one segment produces against a guide: required elements
/// first, then per-value checks; an unknown segment produces none.
pub open spec fn vseg_errors(guide: Seq<GuideSegmentView>, seg: SegmentView) -> Seq<
    ValidationErrorView,
> {
    let j = guide_idx(guide, seg.id);
    if j == guide.len() {
        Seq::empty()
    } else {
        req_elem_errors(guide[j], seg, guide[j].elements.len() as int) + value_elem_errors(
            guide[j],
            seg,
            seg.elements.len() as int,
        )
    }
}

/// Every warning one segment produces: an unknown-segment notice, or values
/// at undefined positions.
pub open spec fn vseg_warnings(guide: Seq<GuideSegmentView>, seg: SegmentView) -> Seq<
    ValidationWarningView,
> {
    let j = guide_idx(guide, seg.id);
    if j == guide.len() {
        seq![vwarn(seg.id, None, "Unknown segment "@ + seg.id + " not in schema"@)]
    } else {
        value_elem_warnings(guide[j], seg, seg.elements.len() as int)
    }
}

pub open spec fn merged_errors(guide: Seq<GuideSegmentView>, segs: Seq<SegmentView>, n: int)
    -> Seq<ValidationErrorView>
    decreases n,
{
    if n <= 0 {
        Seq::empty()
    } else {
        merged_errors(guide, segs, n - 1) + vseg_errors(guide, segs[n - 1])
    }
}

pub open spec fn merged_warnings(guide: Seq<GuideSegmentView>, segs: Seq<SegmentView>, n: int)
    -> Seq<ValidationWarningView>
    decreases n,
{
    if n <= 0 {
        Seq::empty()
    } else {
        merged_warnings(guide, segs, n - 1) + vseg_warnings(guide, segs[n - 1])
    }
}

/// The distinct segment identifiers of a transaction, in first-occurrence
/// order.
pub open spec fn distinct_ids(segs: Seq<SegmentView>, n: int) -> Seq<Seq<char>>
    decreases n,
{
    if n <= 0 {
        Seq::empty()
    } else {
        distinct_ids(segs, n - 1) + (if distinct_ids(segs, n - 1).contains(segs[n - 1].id) {
            Seq::<Seq<char>>::empty()
        } else {
            seq![segs[n - 1].id]
        })
    }
}

/// Repetition errors, one per distinct identifier whose count exceeds the
/// guide's bound, in first-occurrence order.
pub open spec fn rep_errors(
    guide: Seq<GuideSegmentView>,
    segs: Seq<SegmentView>,
    ids: Seq<Seq<char>>,
    n: int,
) -> Seq<ValidationErrorView>
    decreases n,
{
    if n <= 0 {
        Seq::empty()
    } else {
        rep_errors(guide, segs, ids, n - 1) + ({
            let id = ids[n - 1];
            let j = guide_idx(guide, id);
            let count = count_segments_with_id(segs, id);
            if j < guide.len() && (match guide[j].max_repetitions {
                Some(m) => count > m,
                None => false,
            }) {
                seq![
                    verr(
                        id,
                        None,
                        ValidationErrorType::TooManyRepetitions,
                        "Segment "@ + id + " appears "@ + spec_dec(count) + " times, maximum allowed "@
                            + spec_dec(guide[j].max_repetitions->Some_0 as nat),
                    ),
                ]
            } else {
                Seq::<ValidationErrorView>::empty()
            }
        })
    }
}

pub open spec fn has_segment(segs: Seq<SegmentView>, id: Seq<char>) -> bool {
    exists|k: int| 0 <= k < segs.len() && (#[trigger] segs[k]).id == id
}

/// Missing-required-segment errors, in guide order.
pub open spec fn missing_seg_errors(
    guide: Seq<GuideSegmentView>,
    segs: Seq<SegmentView>,
    n: int,
) -> Seq<ValidationErrorView>
    decreases n,
{
    if n <= 0 {
        Seq::empty()
    } else {
        missing_seg_errors(guide, segs, n - 1) + ({
            let def = guide[n - 1];
            if def.usage == SegmentUsage::Required && !has_segment(segs, def.id) {
                seq![
                    verr(
                        def.id,
                        None,
                        ValidationErrorType::MissingRequiredSegment,
                        "Required segment "@ + def.id + " is missing"@,
                    ),
                ]
            } else {
                Seq::<ValidationErrorView>::empty()
            }
        })
    }
}

/// The highest sequence number seen among the first `n` segments the guide
/// assigns one to, never decreasing.
pub open spec fn last_seq(guide: Seq<GuideSegmentView>, segs: Seq<SegmentView>, n: int) -> u32
    decreases n,
{
    if n <= 0 {
        0
    } else {
        let l = last_seq(guide, segs, n - 1);
        let j = guide_idx(guide, segs[n - 1].id);
        if j < guide.len() && (match guide[j].sequence {
            Some(s) => s >= l,
            None => false,
        }) {
            guide[j].sequence->Some_0
        } else {
            l
        }
    }
}

/// Out-of-sequence errors, in segment order.
pub open spec fn seq_errors(guide: Seq<GuideSegmentView>, segs: Seq<SegmentView>, n: int) -> Seq<
    ValidationErrorView,
>
    decreases n,
{
    if n <= 0 {
        Seq::empty()
    } else {
        seq_errors(guide, segs, n - 1) + ({
            let j = guide_idx(guide, segs[n - 1].id);
            if j < guide.len() && (match guide[j].sequence {
                Some(s) => s < last_seq(guide, segs, n - 1),
                None => false,
            }) {
                seq![
                    verr(
                        segs[n - 1].id,
                        None,
                        ValidationErrorType::SegmentOutOfSequence,
                        "Segment "@ + segs[n - 1].id + " appears out of sequence"@,
                    ),
                ]
            } else {
                Seq::<ValidationErrorView>::empty()
            }
        })
    }
}

/// Every error the transaction validator accumulates: the per-segment
/// checks, repetition bounds, mandatory presence, and sequence order.
pub open spec fn spec_tx_errors(guide: Seq<GuideSegmentView>, segs: Seq<SegmentView>) -> Seq<
    ValidationErrorView,
> {
    merged_errors(guide, segs, segs.len() as int) + rep_errors(
        guide,
        segs,
        distinct_ids(segs, segs.len() as int),
        distinct_ids(segs, segs.len() as int).len() as int,
    ) + missing_seg_errors(guide, segs, guide.len() as int) + seq_errors(
        guide,
        segs,
        segs.len() as int,
    )
}

impl EdiValidator {
    /// The guide validated against.
    pub closed spec fn guide(&self) -> Seq<GuideSegmentView> {
        self.schema.segments.deep_view()
    }

    /// A validator over one guide.
    pub fn new(schema: EdiSchema) -> (r: Self)
        ensures
            r.guide() == schema.segments.deep_view(),
    {
        EdiValidator { schema }
    }

    /// Check a whole transaction: every segment's elements, repetition
    /// bounds, mandatory presence, and sequence order; diagnostics
    /// accumulate and never short-circuit.
    pub fn validate_transaction(&self, transaction: &Transaction) -> (r: ValidationResult)
        ensures
            r.errors.deep_view() == spec_tx_errors(self.guide(), transaction@.segments),
            r.warnings.deep_view() == merged_warnings(
                self.guide(),
                transaction@.segments,
                transaction@.segments.len() as int,
            ),
            r.is_valid == (spec_tx_errors(self.guide(), transaction@.segments).len() == 0),
    {
        let ghost guide = self.guide();
        let ghost segs = transaction@.segments;
        let mut result = ValidationResult::new();
        let segments = &transaction.segments;
        let n = segments.len();

        // Per-segment checks.
        let mut i: usize = 0;
        while i < n
            invariant
                i <= n,
                n == segs.len(),
                segs == transaction@.segments,
                segments == &transaction.segments,
                guide == self.guide(),
                result.errors.deep_view() =~= merged_errors(guide, segs, i as int),
                result.warnings.deep_view() =~= merged_warnings(guide, segs, i as int),
                result.is_valid == (merged_errors(guide, segs, i as int).len() == 0),
            decreases n - i,
        {
            proof {
                assert(segs[i as int] == segments@[i as int]@);
            }
            let segment_result = self.validate_segment(&segments[i]);
            let ghost se = segment_result.errors.deep_view();
            let ghost sw = segment_result.warnings.deep_view();
            result.merge(segment_result);
            i = i + 1;
        }

        // Repetition bounds, one check per distinct identifier.
        let mut seen: Vec<String> = Vec::new();
        let mut k: usize = 0;
        while k < n
            invariant
                k <= n,
                n == segs.len(),
                segs == transaction@.segments,
                segments == &transaction.segments,
                seen.deep_view() =~= distinct_ids(segs, k as int),
            decreases n - k,
        {
            proof {
                assert(segs[k as int] == segments@[k as int]@);
            }
            if !crate::utils::string_vec_contains(&seen, segments[k].id.as_str()) {
                let ghost prev = seen.deep_view();
                seen.push(segments[k].id.clone());
                proof {
                    assert(seen.deep_view() =~= prev.push(segs[k as int].id));
                }
            }
            k = k + 1;
        }
        let ghost ids = distinct_ids(segs, segs.len() as int);
        let ghost after_merge = result.errors.deep_view();
        let mut d: usize = 0;
        while d < seen.len()
            invariant
                d <= seen@.len(),
                n == segs.len(),
                segs == transaction@.segments,
                segments == &transaction.segments,
                guide == self.guide(),
                ids == seen.deep_view(),
                after_merge == merged_errors(guide, segs, segs.len() as int),
                result.errors.deep_view() =~= after_merge + rep_errors(guide, segs, ids, d as int),
                result.warnings.deep_view() =~= merged_warnings(guide, segs, segs.len() as int),
                result.is_valid == (result.errors.deep_view().len() == 0),
            decreases seen@.len() - d,
        {
            proof {
                assert(ids[d as int] == seen@[d as int]@);
            }
            let id = &seen[d];
            match self.schema.get_segment(id.as_str()) {
                Some(def) => {
                    proof {
                        lemma_guide_idx_bounds(guide, id@);
                    }
                    match def.max_repetitions {
                        Some(max_reps) => {
                            let mut count: usize = 0;
                            let mut c: usize = 0;
                            while c < n
                                invariant
                                    c <= n,
                                    n == segs.len(),
                                    segs == transaction@.segments,
                                    segments == &transaction.segments,
                                    count == count_segments_with_id(segs.take(c as int), id@),
                                    count <= c,
                                decreases n - c,
                            {
                                proof {
                                    assert(segs.take(c as int + 1).drop_last() =~= segs.take(
                                        c as int,
                                    ));
                                    assert(segs.take(c as int + 1).last() == segs[c as int]);
                                    assert(segs[c as int].id == segments@[c as int].id@);
                                }
                                if string_eq_str(&segments[c].id, id.as_str()) {
                                    count = count + 1;
                                }
                                c = c + 1;
                            }
                            proof {
                                assert(segs.take(segs.len() as int) =~= segs);
                            }
                            if count > max_reps as usize {
                                let msg = String::from_str("Segment ").concat(id.as_str()).concat(
                                    " appears ",
                                ).concat(usize_to_string(count).as_str()).concat(
                                    " times, maximum allowed ",
                                ).concat(u32_to_string(max_reps).as_str());
                                result.add_error(
                                    ValidationError {
                                        segment_id: id.clone(),
                                        element_position: None,
                                        error_type: ValidationErrorType::TooManyRepetitions,
                                        message: msg,
                                    },
                                );
                            }
                        },
                        None => {},
                    }
                },
                None => {
                    proof {
                        lemma_guide_idx_bounds(guide, id@);
                    }
                },
            }
            proof {
                assert(result.errors.deep_view() =~= after_merge + rep_errors(
                    guide,
                    segs,
                    ids,
                    d as int + 1,
                ));
            }
            d = d + 1;
        }
        proof {
            assert(ids.len() == seen@.len());
        }

        // Mandatory presence, in guide order.
        let ghost after_rep = result.errors.deep_view();
        let mut g: usize = 0;
        while g < self.schema.segments.len()
            invariant
                g <= self.schema.segments@.len(),
                n == segs.len(),
                segs == transaction@.segments,
                segments == &transaction.segments,
                guide == self.guide(),
                after_rep == merged_errors(guide, segs, segs.len() as int) + rep_errors(
                    guide,
                    segs,
                    ids,
                    ids.len() as int,
                ),
                ids == distinct_ids(segs, segs.len() as int),
                result.errors.deep_view() =~= after_rep + missing_seg_errors(guide, segs, g as int),
                result.warnings.deep_view() =~= merged_warnings(guide, segs, segs.len() as int),
                result.is_valid == (result.errors.deep_view().len() == 0),
            decreases self.schema.segments@.len() - g,
        {
            let def = &self.schema.segments[g];
            proof {
                assert(def@ == guide[g as int]);
            }
            let is_required = match def.usage {
                SegmentUsage::Required => true,
                _ => false,
            };
            if is_required {
                let mut found = false;
                let mut c: usize = 0;
                while c < n
                    invariant
                        c <= n,
                        n == segs.len(),
                        segs == transaction@.segments,
                        segments == &transaction.segments,
                        g < self.schema.segments@.len(),
                        def == &self.schema.segments@[g as int],
                        found == exists|t: int|
                            0 <= t < c && (#[trigger] segs[t]).id == def.id@,
                    decreases n - c,
                {
                    proof {
                        assert(segs[c as int].id == segments@[c as int].id@);
                    }
                    if string_eq_str(&segments[c].id, def.id.as_str()) {
                        found = true;
                    }
                    c = c + 1;
                }
                if !found {
                    let msg = String::from_str("Required segment ").concat(def.id.as_str()).concat(
                        " is missing",
                    );
                    result.add_error(
                        ValidationError {
                            segment_id: def.id.clone(),
                            element_position: None,
                            error_type: ValidationErrorType::MissingRequiredSegment,
                            message: msg,
                        },
                    );
                }
            }
            proof {
                assert(result.errors.deep_view() =~= after_rep + missing_seg_errors(
                    guide,
                    segs,
                    g as int + 1,
                ));
            }
            g = g + 1;
        }

        // Sequence order.
        let ghost after_missing = result.errors.deep_view();
        let mut last_sequence: u32 = 0;
        let mut s: usize = 0;
        while s < n
            invariant
                s <= n,
                n == segs.len(),
                segs == transaction@.segments,
                segments == &transaction.segments,
                guide == self.guide(),
                last_sequence == last_seq(guide, segs, s as int),
                after_missing == merged_errors(guide, segs, segs.len() as int) + rep_errors(
                    guide,
                    segs,
                    ids,
                    ids.len() as int,
                ) + missing_seg_errors(guide, segs, guide.len() as int),
                ids == distinct_ids(segs, segs.len() as int),
                result.errors.deep_view() =~= after_missing + seq_errors(guide, segs, s as int),
                result.warnings.deep_view() =~= merged_warnings(guide, segs, segs.len() as int),
                result.is_valid == (result.errors.deep_view().len() == 0),
            decreases n - s,
        {
            proof {
                assert(segs[s as int] == segments@[s as int]@);
            }
            match self.schema.get_segment(segments[s].id.as_str()) {
                Some(def) => {
                    proof {
                        lemma_guide_idx_bounds(guide, segs[s as int].id);
                    }
                    match def.sequence {
                        Some(expected_seq) => {
                            if expected_seq < last_sequence {
                                let msg = String::from_str("Segment ").concat(
                                    segments[s].id.as_str(),
                                ).concat(" appears out of sequence");
                                result.add_error(
                                    ValidationError {
                                        segment_id: segments[s].id.clone(),
                                        element_position: None,
                                        error_type: ValidationErrorType::SegmentOutOfSequence,
                                        message: msg,
                                    },
                                );
                            } else {
                                last_sequence = expected_seq;
                            }
                        },
                        None => {},
                    }
                },
                None => {
                    proof {
                        lemma_guide_idx_bounds(guide, segs[s as int].id);
                    }
                },
            }
            proof {
                assert(result.errors.deep_view() =~= after_missing + seq_errors(
                    guide,
                    segs,
                    s as int + 1,
                ));
            }
            s = s + 1;
        }
        result
    }

    /// Check one segment: its required elements must be present and
    /// non-blank, and every present value is held to its definition;
    /// failures accumulate.
    pub fn validate_segment(&self, segment: &Segment) -> (r: ValidationResult)
        ensures
            r.errors.deep_view() == vseg_errors(self.guide(), segment@),
            r.warnings.deep_view() == vseg_warnings(self.guide(), segment@),
            r.is_valid == (vseg_errors(self.guide(), segment@).len() == 0),
    {
        let ghost guide = self.guide();
        let ghost segv = segment@;
        let mut result = ValidationResult::new();
        let segment_def = match self.schema.get_segment(segment.id.as_str()) {
            Some(def) => def,
            None => {
                proof {
                    lemma_guide_idx_bounds(guide, segv.id);
                }
                let msg = String::from_str("Unknown segment ").concat(segment.id.as_str()).concat(
                    " not in schema",
                );
                result.add_warning(
                    ValidationWarning {
                        segment_id: segment.id.clone(),
                        element_position: None,
                        message: msg,
                    },
                );
                proof {
                    assert(result.errors.deep_view() =~= vseg_errors(guide, segv));
                    assert(result.warnings.deep_view() =~= vseg_warnings(guide, segv));
                }
                return result;
            },
        };
        proof {
            lemma_guide_idx_bounds(guide, segv.id);
        }
        let ghost defv = segment_def@;

        // Required elements.
        let mut k: usize = 0;
        while k < segment_def.elements.len()
            invariant
                k <= segment_def.elements@.len(),
                guide == self.guide(),
                segv == segment@,
                defv == segment_def@,
                defv == guide[guide_idx(guide, segv.id)],
                guide_idx(guide, segv.id) < guide.len(),
                result.errors.deep_view() =~= req_elem_errors(defv, segv, k as int),
                result.warnings.deep_view() =~= Seq::<ValidationWarningView>::empty(),
                result.is_valid == (result.errors.deep_view().len() == 0),
            decreases segment_def.elements@.len() - k,
        {
            let e = &segment_def.elements[k];
            proof {
                assert(e@ == defv.elements[k as int]);
            }
            let is_required = match e.usage {
                ElementUsage::Required => true,
                _ => false,
            };
            if is_required {
                let missing: bool = if e.position == 0 {
                    true
                } else {
                    let idx = (e.position - 1) as usize;
                    if idx >= segment.elements.len() {
                        true
                    } else {
                        proof {
                            assert(segv.elements[idx as int] == segment.elements@[idx as int]@);
                        }
                        trim_whitespace(segment.elements[idx].as_str()).as_str().unicode_len() == 0
                    }
                };
                if missing {
                    let msg = String::from_str("Required element at position ").concat(
                        u32_to_string(e.position).as_str(),
                    ).concat(" is missing or empty");
                    result.add_error(
                        ValidationError {
                            segment_id: segment.id.clone(),
                            element_position: Some(e.position as usize),
                            error_type: ValidationErrorType::MissingRequiredElement,
                            message: msg,
                        },
                    );
                }
            }
            proof {
                assert(result.errors.deep_view() =~= req_elem_errors(defv, segv, k as int + 1));
            }
            k = k + 1;
        }

        // Present values against their definitions.
        let ghost after_req = result.errors.deep_view();
        let mut i: usize = 0;
        while i < segment.elements.len()
            invariant
                i <= segment.elements@.len(),
                guide == self.guide(),
                segv == segment@,
                defv == segment_def@,
                defv == guide[guide_idx(guide, segv.id)],
                guide_idx(guide, segv.id) < guide.len(),
                after_req == req_elem_errors(defv, segv, defv.elements.len() as int),
                result.errors.deep_view() =~= after_req + value_elem_errors(defv, segv, i as int),
                result.warnings.deep_view() =~= value_elem_warnings(defv, segv, i as int),
                result.is_valid == (result.errors.deep_view().len() == 0),
            decreases segment.elements@.len() - i,
        {
            proof {
                assert(segv.elements[i as int] == segment.elements@[i as int]@);
            }
            #[verifier::truncate]
            let position: u32 = (i + 1) as u32;
            let nonblank = trim_whitespace(segment.elements[i].as_str()).as_str().unicode_len()
                > 0;
            match segment_def.get_element(position) {
                Some(element_def) => {
                    if nonblank {
                        let msgs = element_def.validate_value(segment.elements[i].as_str());
                        let ghost msv = msgs.deep_view();
                        let ghost before = result.errors.deep_view();
                        let mut t: usize = 0;
                        while t < msgs.len()
                            invariant
                                t <= msgs@.len(),
                                msv == msgs.deep_view(),
                                segv == segment@,
                                segment.id@ == segv.id,
                                position as usize == position,
                                result.errors.deep_view() =~= before + Seq::new(
                                    t as nat,
                                    |u: int|
                                        verr(
                                            segv.id,
                                            Some(position as usize),
                                            ValidationErrorType::InvalidElementFormat,
                                            msv[u],
                                        ),
                                ),
                                result.warnings.deep_view() =~= value_elem_warnings(
                                    defv,
                                    segv,
                                    i as int,
                                ),
                                result.is_valid == (result.errors.deep_view().len() == 0),
                            decreases msgs@.len() - t,
                        {
                            proof {
                                assert(msv[t as int] == msgs@[t as int]@);
                            }
                            let ghost before_push = result.errors.deep_view();
                            result.add_error(
                                ValidationError {
                                    segment_id: segment.id.clone(),
                                    element_position: Some(position as usize),
                                    error_type: ValidationErrorType::InvalidElementFormat,
                                    message: msgs[t].clone(),
                                },
                            );
                            proof {
                                assert(result.errors.deep_view() =~= before + Seq::new(
                                    (t + 1) as nat,
                                    |u: int|
                                        verr(
                                            segv.id,
                                            Some(position as usize),
                                            ValidationErrorType::InvalidElementFormat,
                                            msv[u],
                                        ),
                                ));
                            }
                            t = t + 1;
                        }
                        proof {
                            assert(result.errors.deep_view() =~= before + Seq::new(
                                msv.len(),
                                |u: int|
                                    verr(
                                        segv.id,
                                        Some(position as usize),
                                        ValidationErrorType::InvalidElementFormat,
                                        msv[u],
                                    ),
                            ));
                        }
                    }
                },
                None => {
                    if nonblank {
                        let msg = String::from_str("Element at position ").concat(
                            u32_to_string(position).as_str(),
                        ).concat(" not defined in schema");
                        result.add_warning(
                            ValidationWarning {
                                segment_id: segment.id.clone(),
                                element_position: Some(position as usize),
                                message: msg,
                            },
                        );
                    }
                },
            }
            proof {
                assert(result.errors.deep_view() =~= after_req + value_elem_errors(
                    defv,
                    segv,
                    i as int + 1,
                ));
                assert(result.warnings.deep_view() =~= value_elem_warnings(
                    defv,
                    segv,
                    i as int + 1,
                ));
            }
            i = i + 1;
        }
        proof {
            assert(result.errors.deep_view() =~= vseg_errors(guide, segv));
            assert(result.warnings.deep_view() =~= vseg_warnings(guide, segv));
        }
        result
    }
}

/// Builds a guide schema from parts.
pub struct SchemaBuilder {
    pub version: String,
    pub transaction_set: String,
    pub description: String,
    pub segments: Vec<SegmentDefinition>,
    pub loops: Vec<LoopDefinition>,
}

impl SchemaBuilder {
    /// Start a guide for one version and transaction set.
    pub fn new(version: &str, transaction_set: &str, description: &str) -> (r: Self)
        ensures
            r.version@ == version@,
            r.transaction_set@ == transaction_set@,
            r.description@ == description@,
            r.segments@.len() == 0,
            r.loops@.len() == 0,
    {
        SchemaBuilder {
            version: String::from_str(version),
            transaction_set: String::from_str(transaction_set),
            description: String::from_str(description),
            segments: Vec::new(),
            loops: Vec::new(),
        }
    }

    /// Append one segment definition.
    pub fn add_segment(self, segment: SegmentDefinition) -> (r: Self)
        ensures
            r.segments.deep_view() == self.segments.deep_view().push(segment@),
            r.version@ == self.version@,
            r.transaction_set@ == self.transaction_set@,
            r.loops@ == self.loops@,
    {
        let ghost prev = self.segments.deep_view();
        let ghost sv = segment@;
        let mut segments = self.segments;
        segments.push(segment);
        proof {
            assert(segments.deep_view() =~= prev.push(sv));
        }
        SchemaBuilder { segments, ..self }
    }

    /// Append one loop definition.
    pub fn add_loop(self, loop_def: LoopDefinition) -> (r: Self)
        ensures
            r.loops@.len() == self.loops@.len() + 1,
            r.segments.deep_view() == self.segments.deep_view(),
            r.version@ == self.version@,
            r.transaction_set@ == self.transaction_set@,
    {
        let mut loops = self.loops;
        loops.push(loop_def);
        SchemaBuilder { loops, ..self }
    }

    /// Finish the guide.
    pub fn build(self) -> (r: EdiSchema)
        ensures
            r.version@ == self.version@,
            r.transaction_set@ == self.transaction_set@,
            r.description@ == self.description@,
            r.segments.deep_view() == self.segments.deep_view(),
            r.loops@ == self.loops@,
    {
        EdiSchema {
            version: self.version,
            transaction_set: self.transaction_set,
            description: self.description,
            segments: self.segments,
            loops: self.loops,
        }
    }
}

/// Builds one segment definition.
pub struct SegmentBuilder {
    pub id: String,
    pub name: String,
    pub usage: SegmentUsage,
    pub max_repetitions: Option<u32>,
    pub elements: Vec<ElementDefinition>,
    pub position: u32,
    pub sequence: Option<u32>,
}

impl SegmentBuilder {
    /// Start a segment definition.
    pub fn new(id: &str, name: &str, usage: SegmentUsage, position: u32) -> (r: Self)
        ensures
            r.id@ == id@,
            r.name@ == name@,
            r.usage == usage,
            r.position == position,
            r.max_repetitions is None,
            r.sequence is None,
            r.elements@.len() == 0,
    {
        SegmentBuilder {
            id: String::from_str(id),
            name: String::from_str(name),
            usage,
            max_repetitions: None,
            elements: Vec::new(),
            position,
            sequence: None,
        }
    }

    /// Bound how often the segment may repeat.
    pub fn max_repetitions(self, max: u32) -> (r: Self)
        ensures
            r.max_repetitions == Some(max),
            r.id@ == self.id@ && r.name@ == self.name@ && r.usage == self.usage && r.position
                == self.position && r.sequence == self.sequence && r.elements.deep_view()
                == self.elements.deep_view(),
    {
        SegmentBuilder { max_repetitions: Some(max), ..self }
    }

    /// Give the segment a sequence number.
    pub fn sequence(self, seq_number: u32) -> (r: Self)
        ensures
            r.sequence == Some(seq_number),
            r.id@ == self.id@ && r.name@ == self.name@ && r.usage == self.usage && r.position
                == self.position && r.max_repetitions == self.max_repetitions
                && r.elements.deep_view() == self.elements.deep_view(),
    {
        SegmentBuilder { sequence: Some(seq_number), ..self }
    }

    /// Append one element definition.
    pub fn add_element(self, element: ElementDefinition) -> (r: Self)
        ensures
            r.elements.deep_view() == self.elements.deep_view().push(element@),
            r.id@ == self.id@ && r.name@ == self.name@ && r.usage == self.usage && r.position
                == self.position && r.max_repetitions == self.max_repetitions && r.sequence
                == self.sequence,
    {
        let ghost prev = self.elements.deep_view();
        let ghost ev = element@;
        let mut elements = self.elements;
        elements.push(element);
        proof {
            assert(elements.deep_view() =~= prev.push(ev));
        }
        SegmentBuilder { elements, ..self }
    }

    /// Finish the segment definition.
    pub fn build(self) -> (r: SegmentDefinition)
        ensures
            r@ == (GuideSegmentView {
                id: self.id@,
                name: self.name@,
                usage: self.usage,
                max_repetitions: self.max_repetitions,
                elements: self.elements.deep_view(),
                position: self.position,
                sequence: self.sequence,
            }),
    {
        let r = SegmentDefinition {
            id: self.id,
            name: self.name,
            usage: self.usage,
            max_repetitions: self.max_repetitions,
            elements: self.elements,
            position: self.position,
            sequence: self.sequence,
        };
        proof {
            assert(r@ =~~= (GuideSegmentView {
                id: r.id@,
                name: r.name@,
                usage: r.usage,
                max_repetitions: r.max_repetitions,
                elements: r.elements.deep_view(),
                position: r.position,
                sequence: r.sequence,
            }));
        }
        r
    }
}

/// Builds one element definition.
pub struct ElementBuilder {
    pub position: u32,
    pub element_reference: String,
    pub name: String,
    pub usage: ElementUsage,
    pub data_type: DataType,
    pub min_length: Option<u32>,
    pub max_length: Option<u32>,
    pub valid_codes: Option<Vec<String>>,
    pub format: Option<String>,
}

impl ElementBuilder {
    /// Start an element definition.
    pub fn new(position: u32, element_ref: &str, name: &str, usage: ElementUsage, data_type: DataType)
        -> (r: Self)
        ensures
            r.position == position,
            r.element_reference@ == element_ref@,
            r.name@ == name@,
            r.usage == usage,
            r.data_type == data_type,
            r.min_length is None,
            r.max_length is None,
            r.valid_codes is None,
            r.format is None,
    {
        ElementBuilder {
            position,
            element_reference: String::from_str(element_ref),
            name: String::from_str(name),
            usage,
            data_type,
            min_length: None,
            max_length: None,
            valid_codes: None,
            format: None,
        }
    }

    /// Set both length bounds.
    pub fn length(self, min: u32, max: u32) -> (r: Self)
        ensures
            r.min_length == Some(min),
            r.max_length == Some(max),
            r.position == self.position && r.element_reference@ == self.element_reference@
                && r.name@ == self.name@ && r.usage == self.usage && r.data_type == self.data_type
                && r.valid_codes == self.valid_codes && r.format == self.format,
    {
        ElementBuilder { min_length: Some(min), max_length: Some(max), ..self }
    }

    /// Set the upper length bound alone.
    pub fn max_length(self, max: u32) -> (r: Self)
        ensures
            r.max_length == Some(max),
            r.min_length == self.min_length,
            r.position == self.position && r.element_reference@ == self.element_reference@
                && r.name@ == self.name@ && r.usage == self.usage && r.data_type == self.data_type
                && r.valid_codes == self.valid_codes && r.format == self.format,
    {
        ElementBuilder { max_length: Some(max), ..self }
    }

    /// Declare the accepted codes.
    pub fn valid_codes(self, codes: Vec<String>) -> (r: Self)
        ensures
            r.valid_codes matches Some(c) && c.deep_view() == codes.deep_view(),
            r.min_length == self.min_length && r.max_length == self.max_length,
            r.position == self.position && r.element_reference@ == self.element_reference@
                && r.name@ == self.name@ && r.usage == self.usage && r.data_type == self.data_type
                && r.format == self.format,
    {
        ElementBuilder { valid_codes: Some(codes), ..self }
    }

    /// Declare the value format.
    pub fn format(self, format: &str) -> (r: Self)
        ensures
            r.format matches Some(f) && f@ == format@,
            r.min_length == self.min_length && r.max_length == self.max_length,
            r.position == self.position && r.element_reference@ == self.element_reference@
                && r.name@ == self.name@ && r.usage == self.usage && r.data_type == self.data_type
                && r.valid_codes == self.valid_codes,
    {
        ElementBuilder { format: Some(String::from_str(format)), ..self }
    }

    /// Finish the element definition.
    pub fn build(self) -> (r: ElementDefinition)
        ensures
            r@ == (GuideElementView {
                position: self.position,
                element_reference: self.element_reference@,
                name: self.name@,
                usage: self.usage,
                data_type: self.data_type,
                min_length: self.min_length,
                max_length: self.max_length,
                valid_codes: match self.valid_codes {
                    Some(c) => Some(c.deep_view()),
                    None => None,
                },
                format: match self.format {
                    Some(f) => Some(f@),
                    None => None,
                },
            }),
    {
        let r = ElementDefinition {
            position: self.position,
            element_reference: self.element_reference,
            name: self.name,
            usage: self.usage,
            data_type: self.data_type,
            min_length: self.min_length,
            max_length: self.max_length,
            valid_codes: self.valid_codes,
            format: self.format,
        };
        proof {
            assert(r@ =~~= (GuideElementView {
                position: r.position,
                element_reference: r.element_reference@,
                name: r.name@,
                usage: r.usage,
                data_type: r.data_type,
                min_length: r.min_length,
                max_length: r.max_length,
                valid_codes: match r.valid_codes {
                    Some(ref c) => Some(c.deep_view()),
                    None => None,
                },
                format: match r.format {
                    Some(ref f) => Some(f@),
                    None => None,
                },
            }));
        }
        r
    }
}

} // verus!
