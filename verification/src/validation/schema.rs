use crate::utils::{
    all_digits, is_decimal, spec_dec, str_all_digits, str_is_decimal, str_eq, string_eq_str,
    string_vec_contains, u32_to_string, usize_to_string,
};
use vstd::prelude::*;

verus! {

/// An implementation-guide schema: one transaction set's segments and loops
/// for one version.
#[derive(Debug)]
pub struct EdiSchema {
    pub version: String,
    pub transaction_set: String,
    pub description: String,
    pub segments: Vec<SegmentDefinition>,
    pub loops: Vec<LoopDefinition>,
}

/// One segment's place in an implementation guide.
#[derive(Debug)]
pub struct SegmentDefinition {
    pub id: String,
    pub name: String,
    pub usage: SegmentUsage,
    pub max_repetitions: Option<u32>,
    pub elements: Vec<ElementDefinition>,
    pub position: u32,
    pub sequence: Option<u32>,
}

/// One element's place and rules in an implementation guide.
#[derive(Debug)]
pub struct ElementDefinition {
    pub position: u32,
    pub element_reference: String,
    pub name: String,
    pub usage: ElementUsage,
    pub data_type: DataType,
    pub min_length: Option<u32>,
    pub max_length: Option<u32>,
    pub valid_codes: Option<Vec<String>>,
    pub format: Option<String>,
}

/// A repeating group of segments.
#[derive(Debug)]
pub struct LoopDefinition {
    pub id: String,
    pub name: String,
    pub usage: SegmentUsage,
    pub max_repetitions: Option<u32>,
    pub segments: Vec<String>,
}

#[derive(Debug, Clone, Copy, PartialEq, Eq, Structural)]
pub enum SegmentUsage {
    Required,
    Optional,
    Conditional,
}

#[derive(Debug, Clone, Copy, PartialEq, Eq, Structural)]
pub enum ElementUsage {
    Required,
    Optional,
    Conditional,
    NotUsed,
}

#[derive(Debug, Clone, Copy, PartialEq, Eq, Structural)]
pub enum DataType {
    /// Alphanumeric
    AN,
    /// Numeric
    N,
    /// Decimal
    R,
    /// Identifier
    ID,
    /// Date
    DT,
    /// Time
    TM,
    /// Binary
    B,
}

/// The mathematical content of an `ElementDefinition`.
#[verifier::ext_equal]
pub struct GuideElementView {
    pub position: u32,
    pub element_reference: Seq<char>,
    pub name: Seq<char>,
    pub usage: ElementUsage,
    pub data_type: DataType,
    pub min_length: Option<u32>,
    pub max_length: Option<u32>,
    pub valid_codes: Option<Seq<Seq<char>>>,
    pub format: Option<Seq<char>>,
}

impl View for ElementDefinition {
    type V = GuideElementView;

    open spec fn view(&self) -> GuideElementView {
        GuideElementView {
            position: self.position,
            element_reference: self.element_reference@,
            name: self.name@,
            usage: self.usage,
            data_type: self.data_type,
            min_length: self.min_length,
            max_length: self.max_length,
            valid_codes: match self.valid_codes {
                Some(ref v) => Some(v.deep_view()),
                None => None,
            },
            format: match self.format {
                Some(ref f) => Some(f@),
                None => None,
            },
        }
    }
}

impl DeepView for ElementDefinition {
    type V = GuideElementView;

    open spec fn deep_view(&self) -> GuideElementView {
        self.view()
    }
}

/// The mathematical content of a `SegmentDefinition`.
#[verifier::ext_equal]
pub struct GuideSegmentView {
    pub id: Seq<char>,
    pub name: Seq<char>,
    pub usage: SegmentUsage,
    pub max_repetitions: Option<u32>,
    pub elements: Seq<GuideElementView>,
    pub position: u32,
    pub sequence: Option<u32>,
}

impl View for SegmentDefinition {
    type V = GuideSegmentView;

    open spec fn view(&self) -> GuideSegmentView {
        GuideSegmentView {
            id: self.id@,
            name: self.name@,
            usage: self.usage,
            max_repetitions: self.max_repetitions,
            elements: self.elements.deep_view(),
            position: self.position,
            sequence: self.sequence,
        }
    }
}

impl DeepView for SegmentDefinition {
    type V = GuideSegmentView;

    open spec fn deep_view(&self) -> GuideSegmentView {
        self.view()
    }
}

/// The index of the first guide entry for a segment identifier, or the guide
/// length when absent.
pub open spec fn guide_idx(segs: Seq<GuideSegmentView>, id: Seq<char>) -> int
    decreases segs.len(),
{
    if segs.len() == 0 {
        0
    } else if segs[0].id == id {
        0
    } else {
        1 + guide_idx(segs.drop_first(), id)
    }
}

pub proof fn lemma_guide_idx_bounds(segs: Seq<GuideSegmentView>, id: Seq<char>)
    ensures
        0 <= guide_idx(segs, id) <= segs.len(),
        guide_idx(segs, id) < segs.len() ==> segs[guide_idx(segs, id)].id == id,
        forall|k: int| 0 <= k < guide_idx(segs, id) ==> segs[k].id != id,
    decreases segs.len(),
{
    if segs.len() > 0 && segs[0].id != id {
        lemma_guide_idx_bounds(segs.drop_first(), id);
        assert forall|k: int| 0 <= k < guide_idx(segs, id) implies segs[k].id != id by {
            if k > 0 {
                assert(segs.drop_first()[k - 1].id != id);
            }
        }
    }
}

pub proof fn lemma_guide_idx_is(segs: Seq<GuideSegmentView>, id: Seq<char>, i: int)
    requires
        0 <= i <= segs.len(),
        forall|k: int| 0 <= k < i ==> segs[k].id != id,
        i < segs.len() ==> segs[i].id == id,
    ensures
        guide_idx(segs, id) == i,
    decreases segs.len(),
{
    if segs.len() > 0 && segs[0].id != id {
        assert(i > 0);
        lemma_guide_idx_is(segs.drop_first(), id, i - 1);
    }
}

/// The index of the first element entry for a one-based position, or the
/// element count when absent.
pub open spec fn elem_idx(elems: Seq<GuideElementView>, position: u32) -> int
    decreases elems.len(),
{
    if elems.len() == 0 {
        0
    } else if elems[0].position == position {
        0
    } else {
        1 + elem_idx(elems.drop_first(), position)
    }
}

proof fn lemma_elem_idx_is(elems: Seq<GuideElementView>, position: u32, i: int)
    requires
        0 <= i <= elems.len(),
        forall|k: int| 0 <= k < i ==> elems[k].position != position,
        i < elems.len() ==> elems[i].position == position,
    ensures
        elem_idx(elems, position) == i,
    decreases elems.len(),
{
    if elems.len() > 0 && elems[0].position != position {
        assert(i > 0);
        lemma_elem_idx_is(elems.drop_first(), position, i - 1);
    }
}

impl EdiSchema {
    /// The first guide entry for a segment identifier.
    pub fn get_segment(&self, segment_id: &str) -> (r: Option<&SegmentDefinition>)
        ensures
            match r {
                Some(d) => guide_idx(self.segments.deep_view(), segment_id@)
                    < self.segments.deep_view().len() && d@ == self.segments.deep_view()[guide_idx(
                    self.segments.deep_view(),
                    segment_id@,
                )],
                None => guide_idx(self.segments.deep_view(), segment_id@)
                    == self.segments.deep_view().len(),
            },
    {
        let mut i: usize = 0;
        while i < self.segments.len()
            invariant
                i <= self.segments@.len(),
                forall|k: int| 0 <= k < i ==> self.segments.deep_view()[k].id != segment_id@,
            decreases self.segments@.len() - i,
        {
            proof {
                assert(self.segments.deep_view()[i as int] == self.segments@[i as int]@);
            }
            if string_eq_str(&self.segments[i].id, segment_id) {
                proof {
                    lemma_guide_idx_is(self.segments.deep_view(), segment_id@, i as int);
                }
                return Some(&self.segments[i]);
            }
            i = i + 1;
        }
        proof {
            lemma_guide_idx_is(
                self.segments.deep_view(),
                segment_id@,
                self.segments.deep_view().len() as int,
            );
        }
        None
    }

    /// The guide entries a transaction must carry, in guide order.
    pub fn required_segments(&self) -> (r: Vec<&SegmentDefinition>)
        ensures
            r@.len() <= self.segments@.len(),
            forall|k: int| 0 <= k < r@.len() ==> (#[trigger] r@[k])@.usage == SegmentUsage::Required,
            forall|k: int|
                0 <= k < r@.len() ==> self.segments.deep_view().contains(#[trigger] r@[k]@),
    {
        let mut r: Vec<&SegmentDefinition> = Vec::new();
        let mut i: usize = 0;
        while i < self.segments.len()
            invariant
                i <= self.segments@.len(),
                r@.len() <= i,
                forall|k: int|
                    0 <= k < r@.len() ==> (#[trigger] r@[k])@.usage == SegmentUsage::Required,
                forall|k: int|
                    0 <= k < r@.len() ==> self.segments.deep_view().contains(#[trigger] r@[k]@),
            decreases self.segments@.len() - i,
        {
            let is_required = match self.segments[i].usage {
                SegmentUsage::Required => true,
                _ => false,
            };
            if is_required {
                proof {
                    assert(self.segments.deep_view()[i as int] == self.segments@[i as int]@);
                }
                r.push(&self.segments[i]);
            }
            i = i + 1;
        }
        r
    }
}

impl SegmentDefinition {
    /// The first element entry at a one-based position.
    pub fn get_element(&self, position: u32) -> (r: Option<&ElementDefinition>)
        ensures
            match r {
                Some(d) => elem_idx(self.elements.deep_view(), position)
                    < self.elements.deep_view().len() && d@ == self.elements.deep_view()[elem_idx(
                    self.elements.deep_view(),
                    position,
                )],
                None => elem_idx(self.elements.deep_view(), position)
                    == self.elements.deep_view().len(),
            },
    {
        let mut i: usize = 0;
        while i < self.elements.len()
            invariant
                i <= self.elements@.len(),
                forall|k: int| 0 <= k < i ==> self.elements.deep_view()[k].position != position,
            decreases self.elements@.len() - i,
        {
            proof {
                assert(self.elements.deep_view()[i as int] == self.elements@[i as int]@);
            }
            if self.elements[i].position == position {
                proof {
                    lemma_elem_idx_is(self.elements.deep_view(), position, i as int);
                }
                return Some(&self.elements[i]);
            }
            i = i + 1;
        }
        proof {
            lemma_elem_idx_is(
                self.elements.deep_view(),
                position,
                self.elements.deep_view().len() as int,
            );
        }
        None
    }

    /// The element entries a segment must carry, in guide order.
    pub fn required_elements(&self) -> (r: Vec<&ElementDefinition>)
        ensures
            r@.len() <= self.elements@.len(),
            forall|k: int| 0 <= k < r@.len() ==> (#[trigger] r@[k])@.usage == ElementUsage::Required,
            forall|k: int|
                0 <= k < r@.len() ==> self.elements.deep_view().contains(#[trigger] r@[k]@),
    {
        let mut r: Vec<&ElementDefinition> = Vec::new();
        let mut i: usize = 0;
        while i < self.elements.len()
            invariant
                i <= self.elements@.len(),
                r@.len() <= i,
                forall|k: int|
                    0 <= k < r@.len() ==> (#[trigger] r@[k])@.usage == ElementUsage::Required,
                forall|k: int|
                    0 <= k < r@.len() ==> self.elements.deep_view().contains(#[trigger] r@[k]@),
            decreases self.elements@.len() - i,
        {
            let is_required = match self.elements[i].usage {
                ElementUsage::Required => true,
                _ => false,
            };
            if is_required {
                proof {
                    assert(self.elements.deep_view()[i as int] == self.elements@[i as int]@);
                }
                r.push(&self.elements[i]);
            }
            i = i + 1;
        }
        r
    }
}

/// Whether a value fits a declared date format.
pub open spec fn date_format_ok(v: Seq<char>, format: Seq<char>) -> bool {
    if format == "YYYYMMDD"@ || format == "CCYYMMDD"@ {
        v.len() == 8 && all_digits(v)
    } else if format == "YYMMDD"@ {
        v.len() == 6 && all_digits(v)
    } else {
        true
    }
}

/// The messages `validate_value` accumulates: length bounds, then the data
/// type, then code membership, each failure reported independently.
pub open spec fn spec_value_msgs(e: GuideElementView, v: Seq<char>) -> Seq<Seq<char>> {
    (match e.min_length {
        Some(m) => if v.len() < m {
            seq![
                "Element "@ + e.element_reference + " too short: "@ + spec_dec(v.len())
                    + " chars, minimum "@ + spec_dec(m as nat),
            ]
        } else {
            Seq::<Seq<char>>::empty()
        },
        None => Seq::<Seq<char>>::empty(),
    }) + (match e.max_length {
        Some(m) => if v.len() > m {
            seq![
                "Element "@ + e.element_reference + " too long: "@ + spec_dec(v.len())
                    + " chars, maximum "@ + spec_dec(m as nat),
            ]
        } else {
            Seq::<Seq<char>>::empty()
        },
        None => Seq::<Seq<char>>::empty(),
    }) + (match e.data_type {
        DataType::N => if !all_digits(v) {
            seq!["Element "@ + e.element_reference + " must be numeric"@]
        } else {
            Seq::<Seq<char>>::empty()
        },
        DataType::R => if !is_decimal(v) {
            seq!["Element "@ + e.element_reference + " must be a valid decimal"@]
        } else {
            Seq::<Seq<char>>::empty()
        },
        DataType::DT => match e.format {
            Some(f) => if !date_format_ok(v, f) {
                seq![
                    "Element "@ + e.element_reference + " invalid date format, expected "@ + f,
                ]
            } else {
                Seq::<Seq<char>>::empty()
            },
            None => Seq::<Seq<char>>::empty(),
        },
        _ => Seq::<Seq<char>>::empty(),
    }) + (match e.valid_codes {
        Some(cs) => if !cs.contains(v) {
            seq!["Element "@ + e.element_reference + " invalid code '"@ + v + "'"@]
        } else {
            Seq::<Seq<char>>::empty()
        },
        None => Seq::<Seq<char>>::empty(),
    })
}

impl ElementDefinition {
    /// Check one value, accumulating length, data-type and code failures
    /// independently.
    pub fn validate_value(&self, value: &str) -> (r: Vec<String>)
        ensures
            r.deep_view() == spec_value_msgs(self@, value@),
    {
        let mut errors: Vec<String> = Vec::new();
        let vlen = value.unicode_len();
        match self.min_length {
            Some(m) => {
                if vlen < m as usize {
                    let ghost prev = errors.deep_view();
                    let msg = String::from_str("Element ").concat(
                        self.element_reference.as_str(),
                    ).concat(" too short: ").concat(usize_to_string(vlen).as_str()).concat(
                        " chars, minimum ",
                    ).concat(u32_to_string(m).as_str());
                    let ghost mv = msg@;
                    errors.push(msg);
                    proof {
                        assert(errors.deep_view() =~= prev.push(mv));
                    }
                }
            },
            None => {},
        }
        match self.max_length {
            Some(m) => {
                if vlen > m as usize {
                    let ghost prev = errors.deep_view();
                    let msg = String::from_str("Element ").concat(
                        self.element_reference.as_str(),
                    ).concat(" too long: ").concat(usize_to_string(vlen).as_str()).concat(
                        " chars, maximum ",
                    ).concat(u32_to_string(m).as_str());
                    let ghost mv = msg@;
                    errors.push(msg);
                    proof {
                        assert(errors.deep_view() =~= prev.push(mv));
                    }
                }
            },
            None => {},
        }
        match self.data_type {
            DataType::N => {
                if !str_all_digits(value) {
                    let ghost prev = errors.deep_view();
                    let msg = String::from_str("Element ").concat(
                        self.element_reference.as_str(),
                    ).concat(" must be numeric");
                    let ghost mv = msg@;
                    errors.push(msg);
                    proof {
                        assert(errors.deep_view() =~= prev.push(mv));
                    }
                }
            },
            DataType::R => {
                if !str_is_decimal(value) {
                    let ghost prev = errors.deep_view();
                    let msg = String::from_str("Element ").concat(
                        self.element_reference.as_str(),
                    ).concat(" must be a valid decimal");
                    let ghost mv = msg@;
                    errors.push(msg);
                    proof {
                        assert(errors.deep_view() =~= prev.push(mv));
                    }
                }
            },
            DataType::DT => {
                match &self.format {
                    Some(format) => {
                        if !self.validate_date_format(value, format.as_str()) {
                            let ghost prev = errors.deep_view();
                            let msg = String::from_str("Element ").concat(
                                self.element_reference.as_str(),
                            ).concat(" invalid date format, expected ").concat(format.as_str());
                            let ghost mv = msg@;
                            errors.push(msg);
                            proof {
                                assert(errors.deep_view() =~= prev.push(mv));
                            }
                        }
                    },
                    None => {},
                }
            },
            _ => {},
        }
        match &self.valid_codes {
            Some(codes) => {
                if !string_vec_contains(codes, value) {
                    let ghost prev = errors.deep_view();
                    let msg = String::from_str("Element ").concat(
                        self.element_reference.as_str(),
                    ).concat(" invalid code '").concat(value).concat("'");
                    let ghost mv = msg@;
                    errors.push(msg);
                    proof {
                        assert(errors.deep_view() =~= prev.push(mv));
                    }
                }
            },
            None => {},
        }
        proof {
            assert(errors.deep_view() =~= spec_value_msgs(self@, value@));
        }
        errors
    }

    /// Whether a value fits a declared date format; unknown formats pass.
    fn validate_date_format(&self, value: &str, format: &str) -> (r: bool)
        ensures
            r == date_format_ok(value@, format@),
    {
        let vlen = value.unicode_len();
        if str_eq(format, "YYYYMMDD") || str_eq(format, "CCYYMMDD") {
            vlen == 8 && str_all_digits(value)
        } else if str_eq(format, "YYMMDD") {
            vlen == 6 && str_all_digits(value)
        } else {
            true
        }
    }
}

} // verus!
