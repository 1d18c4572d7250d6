use crate::error::EdiError;
use crate::models::interchange::{FunctionalGroup, FunctionalGroupView, InterchangeControl,
    InterchangeControlView};
use crate::models::segment::{Segment, SegmentView};
use crate::models::transaction::{spec_type_of, Transaction, TransactionView};
use crate::models::version::{spec_version_of, X12Version};
use crate::utils::{
    spec_join, spec_split, spec_trim, split_str, string_eq_str, trim_whitespace,
};
use vstd::prelude::*;

verus! {

/// Splits raw X12 text into the control hierarchy using configurable
/// separators; the separators actually in effect are discovered from the
/// interchange header record.
#[derive(Debug, Clone, Copy)]
pub struct X12Parser {
    element_separator: char,
    segment_separator: char,
    sub_element_separator: char,
    strict_validation: bool,
    trim_whitespace: bool,
}

/// The configuration of an `X12Parser`.
pub struct X12ParserView {
    pub element_separator: char,
    pub segment_separator: char,
    pub sub_element_separator: char,
    pub strict_validation: bool,
    pub trim_whitespace: bool,
}

impl View for X12Parser {
    type V = X12ParserView;

    closed spec fn view(&self) -> X12ParserView {
        X12ParserView {
            element_separator: self.element_separator,
            segment_separator: self.segment_separator,
            sub_element_separator: self.sub_element_separator,
            strict_validation: self.strict_validation,
            trim_whitespace: self.trim_whitespace,
        }
    }
}

impl Default for X12Parser {
    /// The standard separators: `*` between elements, `~` between segments,
    /// `>` between sub-elements; lenient validation, trimming on.
    fn default() -> (r: Self)
        ensures
            r@.element_separator == '*',
            r@.segment_separator == '~',
            r@.sub_element_separator == '>',
            !r@.strict_validation,
            r@.trim_whitespace,
    {
        X12Parser {
            element_separator: '*',
            segment_separator: '~',
            sub_element_separator: '>',
            strict_validation: false,
            trim_whitespace: true,
        }
    }
}

// ---------------------------------------------------------------------------
// Tokenization model
// ---------------------------------------------------------------------------

/// Trim each piece, or leave all pieces alone.
pub open spec fn spec_map_trim(parts: Seq<Seq<char>>, trim: bool) -> Seq<Seq<char>> {
    if trim {
        parts.map(|i: int, p: Seq<char>| spec_trim(p))
    } else {
        parts
    }
}

/// The records of a document: the text split on the segment separator, blank
/// pieces discarded.
pub open spec fn spec_records(input: Seq<char>, ssep: char) -> Seq<Seq<char>> {
    spec_drop_blank(spec_split(input, ssep))
}

/// Discard pieces that are empty after trimming.
pub open spec fn spec_drop_blank(parts: Seq<Seq<char>>) -> Seq<Seq<char>>
    decreases parts.len(),
{
    if parts.len() == 0 {
        Seq::empty()
    } else {
        spec_drop_blank(parts.drop_last()) + (if spec_trim(parts.last()).len() > 0 {
            seq![parts.last()]
        } else {
            Seq::<Seq<char>>::empty()
        })
    }
}

/// One record split on the element separator: the first piece is the segment
/// identifier, the rest are its elements.
pub open spec fn spec_parse_segment(line: Seq<char>, esep: char, trim: bool) -> SegmentView {
    let parts = spec_map_trim(spec_split(line, esep), trim);
    SegmentView { id: parts[0], elements: parts.drop_first() }
}

/// The interchange header record, reparsed on the assumed `*` separator; the
/// identifier is pinned to "ISA".  `None` when the record has fewer than the
/// sixteen required positions.
pub open spec fn spec_parse_isa(line: Seq<char>, trim: bool) -> Option<SegmentView> {
    let trimmed = if trim {
        spec_trim(line)
    } else {
        line
    };
    let parts = spec_map_trim(spec_split(trimmed, '*'), trim);
    if parts.len() < 16 {
        None
    } else {
        Some(SegmentView { id: "ISA"@, elements: parts.drop_first() })
    }
}

/// The separators the header record declares: the element separator stays
/// `*`, the segment separator is the first character of position fifteen, the
/// sub-element separator the first character of position sixteen; either
/// falls back to its default when absent.  `None` when the record has fewer
/// than sixteen positions.
pub open spec fn spec_extract_delimiters(line: Seq<char>) -> Option<(char, char, char)> {
    let parts = spec_split(line, '*');
    if parts.len() < 16 {
        None
    } else {
        Some(
            (
                '*',
                if parts[15].len() > 0 {
                    parts[15][0]
                } else {
                    '~'
                },
                if parts.len() > 16 && parts[16].len() > 0 {
                    parts[16][0]
                } else {
                    '>'
                },
            ),
        )
    }
}

// ---------------------------------------------------------------------------
// Tokenization, executable
// ---------------------------------------------------------------------------

/// Split text on the segment separator and discard blank records.
pub fn split_records(input: &str, ssep: char) -> (r: Vec<String>)
    ensures
        r.deep_view() == spec_records(input@, ssep),
{
    let parts = split_str(input, ssep);
    let mut r: Vec<String> = Vec::new();
    let mut i: usize = 0;
    while i < parts.len()
        invariant
            i <= parts.len(),
            r.deep_view() == spec_drop_blank(parts.deep_view().take(i as int)),
        decreases parts.len() - i,
    {
        proof {
            assert(parts.deep_view().take(i as int + 1).drop_last() =~= parts.deep_view().take(
                i as int,
            ));
            assert(parts.deep_view().take(i as int + 1).last() == parts@[i as int]@);
        }
        let t = trim_whitespace(parts[i].as_str());
        if t.as_str().unicode_len() > 0 {
            r.push(parts[i].clone());
        }
        proof {
            assert(r.deep_view() =~= spec_drop_blank(parts.deep_view().take(i as int + 1)));
        }
        i = i + 1;
    }
    proof {
        assert(parts.deep_view().take(parts@.len() as int) =~= parts.deep_view());
    }
    r
}

/// Trim every piece when trimming is on.
fn map_trim(parts: Vec<String>, trim: bool) -> (r: Vec<String>)
    ensures
        r.deep_view() == spec_map_trim(parts.deep_view(), trim),
{
    if !trim {
        return parts;
    }
    let mut r: Vec<String> = Vec::new();
    let mut i: usize = 0;
    while i < parts.len()
        invariant
            i <= parts.len(),
            r.deep_view() =~= parts.deep_view().map(|k: int, p: Seq<char>| spec_trim(p)).take(
                i as int,
            ),
        decreases parts.len() - i,
    {
        let ghost prev = r.deep_view();
        let t = trim_whitespace(parts[i].as_str());
        proof {
            assert(t@ == spec_trim(parts.deep_view()[i as int]));
        }
        r.push(t);
        proof {
            assert(r.deep_view() =~= prev.push(spec_trim(parts.deep_view()[i as int])));
            assert(r.deep_view() =~= parts.deep_view().map(
                |k: int, p: Seq<char>| spec_trim(p),
            ).take(i as int + 1));
        }
        i = i + 1;
    }
    proof {
        assert(r.deep_view() =~= parts.deep_view().map(|k: int, p: Seq<char>| spec_trim(p)));
    }
    r
}

/// Split one record into a segment: identifier first, elements after.
fn parse_record(line: &str, esep: char, trim: bool) -> (r: Segment)
    ensures
        r@ == spec_parse_segment(line@, esep, trim),
{
    let parts = map_trim(split_str(line, esep), trim);
    proof {
        crate::utils::lemma_split_len(line@, esep);
        assert(parts.deep_view().len() >= 1);
    }
    let mut elements: Vec<String> = Vec::new();
    let mut i: usize = 1;
    while i < parts.len()
        invariant
            1 <= i <= parts.len(),
            parts.deep_view() == spec_map_trim(spec_split(line@, esep), trim),
            parts.deep_view().len() >= 1,
            elements.deep_view() =~= parts.deep_view().subrange(1, i as int),
        decreases parts.len() - i,
    {
        let ghost prev = elements.deep_view();
        let e = parts[i].clone();
        proof {
            assert(e@ == parts.deep_view()[i as int]);
        }
        elements.push(e);
        proof {
            assert(elements.deep_view() =~= prev.push(parts.deep_view()[i as int]));
            assert(elements.deep_view() =~= parts.deep_view().subrange(1, i as int + 1));
        }
        i = i + 1;
    }
    proof {
        assert(elements.deep_view() =~= parts.deep_view().drop_first());
    }
    let id = parts[0].clone();
    Segment { id, elements }
}

// ---------------------------------------------------------------------------
// Assembly model: a fold over the flat segment list
// ---------------------------------------------------------------------------

/// The assembler's running state: finished groups, the open group and open
/// transaction, and how many segments were discarded (orphans, trailers with
/// nothing to close, and transactions that had no group to land in).
#[verifier::ext_equal]
pub struct AsmState {
    pub groups: Seq<FunctionalGroupView>,
    pub current_group: Option<FunctionalGroupView>,
    pub current_transaction: Option<TransactionView>,
    pub dropped: nat,
}

pub open spec fn asm_init() -> AsmState {
    AsmState {
        groups: Seq::empty(),
        current_group: None,
        current_transaction: None,
        dropped: 0,
    }
}

/// Move the open transaction into the open group; with no group open, its
/// segments are discarded.
pub open spec fn asm_flush_transaction(st: AsmState) -> AsmState {
    match st.current_transaction {
        Some(tx) => match st.current_group {
            Some(fg) => AsmState {
                current_group: Some(
                    FunctionalGroupView { transactions: fg.transactions.push(tx), ..fg },
                ),
                current_transaction: None,
                ..st
            },
            None => AsmState {
                current_transaction: None,
                dropped: st.dropped + tx.segments.len(),
                ..st
            },
        },
        None => st,
    }
}

/// One transition of the assembler, keyed on the segment identifier.  `None`
/// is the hard failure: a transaction header without both the set identifier
/// and the control number.
pub open spec fn asm_step(st: AsmState, seg: SegmentView) -> Option<AsmState> {
    if seg.id == "GS"@ {
        let groups = match st.current_group {
            Some(fg) => st.groups.push(fg),
            None => st.groups,
        };
        Some(
            AsmState {
                groups,
                current_group: Some(
                    FunctionalGroupView {
                        gs_segment: seg,
                        ge_segment: None,
                        transactions: Seq::empty(),
                    },
                ),
                ..st
            },
        )
    } else if seg.id == "GE"@ {
        match st.current_group {
            Some(fg) => Some(
                AsmState {
                    groups: st.groups.push(FunctionalGroupView { ge_segment: Some(seg), ..fg }),
                    current_group: None,
                    ..st
                },
            ),
            None => Some(AsmState { dropped: st.dropped + 1, ..st }),
        }
    } else if seg.id == "ST"@ {
        if seg.elements.len() < 2 {
            None
        } else {
            let st1 = asm_flush_transaction(st);
            Some(
                AsmState {
                    current_transaction: Some(
                        TransactionView {
                            segments: seq![seg],
                            transaction_set_id: seg.elements[0],
                            control_number: seg.elements[1],
                            transaction_type: spec_type_of(seg.elements[0]),
                        },
                    ),
                    ..st1
                },
            )
        }
    } else if seg.id == "SE"@ {
        match st.current_transaction {
            Some(tx) => {
                let tx2 = TransactionView { segments: tx.segments.push(seg), ..tx };
                match st.current_group {
                    Some(fg) => Some(
                        AsmState {
                            current_group: Some(
                                FunctionalGroupView {
                                    transactions: fg.transactions.push(tx2),
                                    ..fg
                                },
                            ),
                            current_transaction: None,
                            ..st
                        },
                    ),
                    None => Some(
                        AsmState {
                            current_transaction: None,
                            dropped: st.dropped + tx2.segments.len(),
                            ..st
                        },
                    ),
                }
            },
            None => Some(AsmState { dropped: st.dropped + 1, ..st }),
        }
    } else {
        match st.current_transaction {
            Some(tx) => Some(
                AsmState {
                    current_transaction: Some(
                        TransactionView { segments: tx.segments.push(seg), ..tx },
                    ),
                    ..st
                },
            ),
            None => Some(AsmState { dropped: st.dropped + 1, ..st }),
        }
    }
}

/// The assembler's state after consuming the whole segment list.
pub open spec fn asm_fold(segs: Seq<SegmentView>) -> Option<AsmState>
    decreases segs.len(),
{
    if segs.len() == 0 {
        Some(asm_init())
    } else {
        match asm_fold(segs.drop_last()) {
            None => None,
            Some(st) => asm_step(st, segs.last()),
        }
    }
}

/// Flush whatever is still open at end of input.
pub open spec fn asm_finish(st: AsmState) -> (Seq<FunctionalGroupView>, nat) {
    let st1 = asm_flush_transaction(st);
    match st1.current_group {
        Some(fg) => (st1.groups.push(fg), st1.dropped),
        None => (st1.groups, st1.dropped),
    }
}

/// The index of the segment on which the fold failed.
pub open spec fn asm_fail_idx(segs: Seq<SegmentView>) -> int
    decreases segs.len(),
{
    if segs.len() == 0 {
        0
    } else if asm_fold(segs.drop_last()) is None {
        asm_fail_idx(segs.drop_last())
    } else {
        segs.len() - 1
    }
}

/// A failing step pins both the failure of the whole fold and its index.
pub proof fn lemma_fail_at(segs: Seq<SegmentView>, i: int)
    requires
        0 <= i < segs.len(),
        asm_fold(segs.take(i)) is Some,
        asm_step(asm_fold(segs.take(i))->Some_0, segs[i]) is None,
    ensures
        asm_fold(segs) is None,
        asm_fail_idx(segs) == i,
    decreases segs.len(),
{
    if i == segs.len() - 1 {
        assert(segs.drop_last() =~= segs.take(i));
        assert(segs.last() == segs[i]);
    } else {
        assert(segs.drop_last().take(i) =~= segs.take(i));
        assert(segs.drop_last()[i] == segs[i]);
        lemma_fail_at(segs.drop_last(), i);
    }
}

/// The parsed segments of a record list, the header record excluded.
pub open spec fn spec_doc_segments(records: Seq<Seq<char>>, esep: char, trim: bool) -> Seq<
    SegmentView,
>
    recommends
        records.len() >= 1,
{
    Seq::new((records.len() - 1) as nat, |i: int| spec_parse_segment(records[i + 1], esep, trim))
}

// ---------------------------------------------------------------------------
// Locating the interchange trailer
// ---------------------------------------------------------------------------

pub open spec fn starts_with_iea(r: Seq<char>) -> bool {
    r.len() >= 3 && r[0] == 'I' && r[1] == 'E' && r[2] == 'A'
}

/// The parse of the first record whose raw text starts with "IEA".
pub open spec fn spec_find_iea(records: Seq<Seq<char>>, esep: char, trim: bool) -> Option<
    SegmentView,
>
    decreases records.len(),
{
    if records.len() == 0 {
        None
    } else if starts_with_iea(records[0]) {
        Some(spec_parse_segment(records[0], esep, trim))
    } else {
        spec_find_iea(records.drop_first(), esep, trim)
    }
}

proof fn lemma_find_iea_skip(records: Seq<Seq<char>>, i: int, esep: char, trim: bool)
    requires
        0 <= i <= records.len(),
        forall|k: int| 0 <= k < i ==> !starts_with_iea(#[trigger] records[k]),
    ensures
        spec_find_iea(records, esep, trim) == spec_find_iea(records.skip(i), esep, trim),
    decreases i,
{
    if i > 0 {
        lemma_find_iea_skip(records, i - 1, esep, trim);
        let r = records.skip(i - 1);
        assert(r[0] == records[i - 1]);
        assert(!starts_with_iea(r[0]));
        assert(r.drop_first() =~= records.skip(i));
    } else {
        assert(records.skip(0) =~= records);
    }
}

fn find_iea(records: &Vec<String>, parser: &X12Parser) -> (r: Result<Option<Segment>, EdiError>)
    ensures
        match r {
            Ok(opt) => opt.deep_view() == spec_find_iea(
                records.deep_view(),
                parser@.element_separator,
                parser@.trim_whitespace,
            ),
            Err(_) => false,
        },
{
    let ghost recs = records.deep_view();
    let mut j: usize = 0;
    while j < records.len()
        invariant
            j <= records.len(),
            recs == records.deep_view(),
            forall|k: int| 0 <= k < j ==> !starts_with_iea(#[trigger] recs[k]),
        decreases records.len() - j,
    {
        let rj = records[j].as_str();
        proof {
            assert(rj@ == recs[j as int]);
        }
        let n = rj.unicode_len();
        if n >= 3 && rj.get_char(0) == 'I' && rj.get_char(1) == 'E' && rj.get_char(2) == 'A' {
            let seg = match parser.parse_segment(rj) {
                Ok(s) => s,
                Err(e) => {
                    return Err(e);
                },
            };
            proof {
                lemma_find_iea_skip(recs, j as int, parser@.element_separator,
                    parser@.trim_whitespace);
                assert(recs.skip(j as int)[0] == recs[j as int]);
            }
            return Ok(Some(seg));
        }
        j = j + 1;
    }
    proof {
        lemma_find_iea_skip(recs, records.len() as int, parser@.element_separator,
            parser@.trim_whitespace);
        assert(recs.skip(records.len() as int) =~= Seq::<Seq<char>>::empty());
    }
    Ok(None)
}

// ---------------------------------------------------------------------------
// The whole parse, as one specification
// ---------------------------------------------------------------------------

/// The hard failures of parsing.
pub enum ParseFault {
    /// No non-blank record at all.
    EmptyInput,
    /// The header record, which could not be read as an interchange header.
    BadHeader(Seq<char>),
    /// The record of a transaction header that lacks its set identifier or
    /// control number.
    BadTransactionHeader(Seq<char>),
}

/// Whether the discovered separators make the parser re-derive its settings:
/// it then trims regardless of the original configuration.
pub open spec fn spec_effective_trim(cfg: X12ParserView, d: (char, char, char)) -> bool {
    if d.0 != cfg.element_separator || d.1 != cfg.segment_separator {
        true
    } else {
        cfg.trim_whitespace
    }
}

/// What parsing a document yields: the assembled hierarchy, or the first hard
/// fault.
pub open spec fn spec_parse_x12(cfg: X12ParserView, input: Seq<char>) -> Result<
    InterchangeControlView,
    ParseFault,
> {
    let records = spec_records(input, cfg.segment_separator);
    if records.len() == 0 {
        Err(ParseFault::EmptyInput)
    } else if spec_parse_isa(records[0], cfg.trim_whitespace) is None || spec_extract_delimiters(
        records[0],
    ) is None {
        Err(ParseFault::BadHeader(records[0]))
    } else {
        let isa = spec_parse_isa(records[0], cfg.trim_whitespace)->Some_0;
        let d = spec_extract_delimiters(records[0])->Some_0;
        let esep = d.0;
        let trim = spec_effective_trim(cfg, d);
        let segs = spec_doc_segments(records, esep, trim);
        match asm_fold(segs) {
            None => Err(ParseFault::BadTransactionHeader(records[asm_fail_idx(segs) + 1])),
            Some(st) => Ok(
                InterchangeControlView {
                    isa_segment: isa,
                    iea_segment: spec_find_iea(records, esep, trim),
                    functional_groups: asm_finish(st).0,
                    version: spec_version_of(isa.elements[11]),
                },
            ),
        }
    }
}

impl X12Parser {
    /// A parser with the given separators, lenient validation and trimming on.
    pub fn with_delimiters(
        element_separator: char,
        segment_separator: char,
        sub_element_separator: char,
    ) -> (r: Self)
        ensures
            r@.element_separator == element_separator,
            r@.segment_separator == segment_separator,
            r@.sub_element_separator == sub_element_separator,
            !r@.strict_validation,
            r@.trim_whitespace,
    {
        X12Parser {
            element_separator,
            segment_separator,
            sub_element_separator,
            strict_validation: false,
            trim_whitespace: true,
        }
    }

    /// A parser with every setting given explicitly.
    pub fn with_config(
        element_separator: char,
        segment_separator: char,
        sub_element_separator: char,
        strict_validation: bool,
        trim_whitespace: bool,
    ) -> (r: Self)
        ensures
            r@.element_separator == element_separator,
            r@.segment_separator == segment_separator,
            r@.sub_element_separator == sub_element_separator,
            r@.strict_validation == strict_validation,
            r@.trim_whitespace == trim_whitespace,
    {
        X12Parser {
            element_separator,
            segment_separator,
            sub_element_separator,
            strict_validation,
            trim_whitespace,
        }
    }

    /// Trim when trimming is configured, otherwise copy unchanged.
    fn trim_whitespace(&self, s: &str) -> (r: String)
        ensures
            self@.trim_whitespace ==> r@ == spec_trim(s@),
            !self@.trim_whitespace ==> r@ == s@,
    {
        if self.trim_whitespace {
            trim_whitespace(s)
        } else {
            String::from_str(s)
        }
    }

    /// Split one record on the configured element separator.
    fn parse_segment(&self, line: &str) -> (r: Result<Segment, EdiError>)
        ensures
            match r {
                Ok(seg) => seg@ == spec_parse_segment(
                    line@,
                    self@.element_separator,
                    self@.trim_whitespace,
                ),
                Err(_) => false,
            },
    {
        let seg = parse_record(line, self.element_separator, self.trim_whitespace);
        Ok(seg)
    }

    /// Recover the separators declared by the header record.
    fn extract_delimiters_from_isa(&self, isa_segment: &str) -> (r: Result<
        (char, char, char),
        EdiError,
    >)
        ensures
            match r {
                Ok(t) => spec_extract_delimiters(isa_segment@) == Some(t),
                Err(e) => spec_extract_delimiters(isa_segment@) is None && (
                e matches EdiError::InvalidSegmentFormat(m) && m@ == isa_segment@),
            },
    {
        let elements = split_str(isa_segment, '*');
        if elements.len() < 16 {
            return Err(EdiError::InvalidSegmentFormat(String::from_str(isa_segment)));
        }
        let element_separator = '*';
        proof {
            assert(elements.deep_view()[15] == elements@[15]@);
        }
        let segment_separator = if elements[15].as_str().unicode_len() > 0 {
            elements[15].as_str().get_char(0)
        } else {
            '~'
        };
        let sub_element_separator = if elements.len() > 16 {
            proof {
                assert(elements.deep_view()[16] == elements@[16]@);
            }
            if elements[16].as_str().unicode_len() > 0 {
                elements[16].as_str().get_char(0)
            } else {
                '>'
            }
        } else {
            '>'
        };
        Ok((element_separator, segment_separator, sub_element_separator))
    }

    /// Reparse the header record on the assumed `*` separator, pinning the
    /// identifier to "ISA".
    fn parse_isa_segment(&self, isa_line: &str) -> (r: Result<Segment, EdiError>)
        ensures
            match r {
                Ok(seg) => spec_parse_isa(isa_line@, self@.trim_whitespace) == Some(seg@),
                Err(e) => spec_parse_isa(isa_line@, self@.trim_whitespace) is None && (
                e matches EdiError::InvalidSegmentFormat(m) && m@ == isa_line@),
            },
    {
        let trimmed = self.trim_whitespace(isa_line);
        let parts = map_trim(split_str(trimmed.as_str(), '*'), self.trim_whitespace);
        proof {
            crate::utils::lemma_split_len(trimmed@, '*');
        }
        if parts.len() < 16 {
            return Err(EdiError::InvalidSegmentFormat(String::from_str(isa_line)));
        }
        let mut elements: Vec<String> = Vec::new();
        let mut i: usize = 1;
        while i < parts.len()
            invariant
                1 <= i <= parts.len(),
                elements.deep_view() =~= parts.deep_view().subrange(1, i as int),
            decreases parts.len() - i,
        {
            let ghost prev = elements.deep_view();
            let e = parts[i].clone();
            proof {
                assert(e@ == parts.deep_view()[i as int]);
            }
            elements.push(e);
            proof {
                assert(elements.deep_view() =~= prev.push(parts.deep_view()[i as int]));
                assert(elements.deep_view() =~= parts.deep_view().subrange(1, i as int + 1));
            }
            i = i + 1;
        }
        proof {
            assert(elements.deep_view() =~= parts.deep_view().drop_first());
        }
        Ok(Segment { id: String::from_str("ISA"), elements })
    }

    /// Tokenize a document with separators discovered from its header record
    /// and fold the flat segment list into the control hierarchy.  Hard
    /// faults (empty input, an unreadable header, a transaction header
    /// without set identifier and control number) abort with a typed error;
    /// everything else is assembled, missing trailers included.
    pub fn parse(&self, input: &str) -> (r: Result<InterchangeControl, EdiError>)
        ensures
            match r {
                Ok(ic) => spec_parse_x12(self@, input@) == Ok::<InterchangeControlView, ParseFault>(
                    ic@,
                ),
                Err(e) => match spec_parse_x12(self@, input@) {
                    Err(ParseFault::EmptyInput) => e matches EdiError::InvalidSegmentFormat(m)
                        && m@ == "Empty input"@,
                    Err(ParseFault::BadHeader(rec)) => e matches EdiError::InvalidSegmentFormat(m)
                        && m@ == rec,
                    Err(ParseFault::BadTransactionHeader(rec)) => e matches EdiError::InvalidSegmentFormat(
                        m,
                    ) && m@ == rec,
                    Ok(_) => false,
                },
            },
    {
        let records = split_records(input, self.segment_separator);
        let ghost recs = records.deep_view();
        if records.len() == 0 {
            return Err(EdiError::InvalidSegmentFormat(String::from_str("Empty input")));
        }
        proof {
            assert(records@[0]@ == recs[0]);
        }
        let isa_segment = match self.parse_isa_segment(records[0].as_str()) {
            Ok(s) => s,
            Err(e) => {
                return Err(e);
            },
        };
        let delims = match self.extract_delimiters_from_isa(records[0].as_str()) {
            Ok(d) => d,
            Err(e) => {
                return Err(e);
            },
        };
        let parser = if delims.0 != self.element_separator || delims.1 != self.segment_separator {
            X12Parser::with_delimiters(delims.0, delims.1, delims.2)
        } else {
            *self
        };
        let ghost esep = parser@.element_separator;
        let ghost trim = parser@.trim_whitespace;
        proof {
            assert(esep == delims.0);
            assert(trim == spec_effective_trim(self@, delims));
        }
        let ghost segs = spec_doc_segments(recs, esep, trim);

        let mut functional_groups: Vec<FunctionalGroup> = Vec::new();
        let mut current_fg: Option<FunctionalGroup> = None;
        let mut current_transaction: Option<Transaction> = None;
        let ghost mut dropped: nat = 0;
        let mut k: usize = 1;
        while k < records.len()
            invariant
                1 <= k <= records.len(),
                recs == records.deep_view(),
                recs.len() >= 1,
                recs == spec_records(input@, self@.segment_separator),
                spec_parse_isa(recs[0], self@.trim_whitespace) == Some(isa_segment@),
                spec_extract_delimiters(recs[0]) == Some(delims),
                esep == delims.0,
                trim == spec_effective_trim(self@, delims),
                segs == spec_doc_segments(recs, esep, trim),
                segs.len() == recs.len() - 1,
                parser@.element_separator == esep,
                parser@.trim_whitespace == trim,
                asm_fold(segs.take(k as int - 1)) == Some(
                    AsmState {
                        groups: functional_groups.deep_view(),
                        current_group: current_fg.deep_view(),
                        current_transaction: current_transaction.deep_view(),
                        dropped,
                    },
                ),
            decreases records.len() - k,
        {
            let ghost st_prev = AsmState {
                groups: functional_groups.deep_view(),
                current_group: current_fg.deep_view(),
                current_transaction: current_transaction.deep_view(),
                dropped,
            };
            proof {
                assert(records@[k as int]@ == recs[k as int]);
                assert(segs[k as int - 1] == spec_parse_segment(recs[k as int], esep, trim));
                assert(segs.take(k as int).drop_last() =~= segs.take(k as int - 1));
                assert(segs.take(k as int).last() == segs[k as int - 1]);
            }
            let segment = match parser.parse_segment(records[k].as_str()) {
                Ok(s) => s,
                Err(e) => {
                    proof {
                        assert(false);
                    }
                    return Err(e);
                },
            };
            let ghost segv = segment@;
            if string_eq_str(&segment.id, "GS") {
                let prev_fg = current_fg;
                match prev_fg {
                    Some(fg) => {
                        let ghost gprev = functional_groups.deep_view();
                        functional_groups.push(fg);
                        proof {
                            assert(functional_groups.deep_view() =~= gprev.push(fg@));
                        }
                    },
                    None => {},
                }
                current_fg = Some(
                    FunctionalGroup {
                        gs_segment: segment,
                        ge_segment: None,
                        transactions: Vec::new(),
                    },
                );
                proof {
                    let st_new = AsmState {
                        groups: functional_groups.deep_view(),
                        current_group: current_fg.deep_view(),
                        current_transaction: current_transaction.deep_view(),
                        dropped,
                    };
                    assert(current_fg.deep_view() matches Some(f) && f =~~= (
                    FunctionalGroupView {
                        gs_segment: segv,
                        ge_segment: None,
                        transactions: Seq::empty(),
                    }));
                    assert(asm_step(st_prev, segv) matches Some(s) && s =~~= st_new);
                }
            } else if string_eq_str(&segment.id, "GE") {
                let prev_fg = current_fg;
                current_fg = None;
                match prev_fg {
                    Some(fg) => {
                        let ghost gprev = functional_groups.deep_view();
                        let ghost fgv = fg@;
                        let fg2 = FunctionalGroup {
                            gs_segment: fg.gs_segment,
                            ge_segment: Some(segment),
                            transactions: fg.transactions,
                        };
                        proof {
                            assert(fg2@ =~~= (FunctionalGroupView {
                                ge_segment: Some(segv),
                                ..fgv
                            }));
                        }
                        functional_groups.push(fg2);
                        proof {
                            assert(functional_groups.deep_view() =~= gprev.push(fg2@));
                        }
                    },
                    None => {
                        proof {
                            dropped = dropped + 1;
                        }
                    },
                }
                proof {
                    let st_new = AsmState {
                        groups: functional_groups.deep_view(),
                        current_group: current_fg.deep_view(),
                        current_transaction: current_transaction.deep_view(),
                        dropped,
                    };
                    assert(asm_step(st_prev, segv) matches Some(s) && s =~~= st_new);
                }
            } else if string_eq_str(&segment.id, "ST") {
                let prev_tx = current_transaction;
                current_transaction = None;
                match prev_tx {
                    Some(tx) => {
                        let prev_fg = current_fg;
                        current_fg = None;
                        match prev_fg {
                            Some(fg) => {
                                let ghost fgv = fg@;
                                let ghost txv = tx@;
                                let mut fg2 = fg;
                                fg2.transactions.push(tx);
                                proof {
                                    assert(fg2@ =~~= (FunctionalGroupView {
                                        transactions: fgv.transactions.push(txv),
                                        ..fgv
                                    }));
                                }
                                current_fg = Some(fg2);
                            },
                            None => {
                                proof {
                                    dropped = dropped + tx@.segments.len();
                                }
                            },
                        }
                    },
                    None => {},
                }
                proof {
                    let st_flushed = AsmState {
                        groups: functional_groups.deep_view(),
                        current_group: current_fg.deep_view(),
                        current_transaction: current_transaction.deep_view(),
                        dropped,
                    };
                    assert(asm_flush_transaction(st_prev) =~~= st_flushed);
                }
                if segment.elements.len() < 2 {
                    proof {
                        assert(asm_step(st_prev, segv) is None);
                        lemma_fail_at(segs, k as int - 1);
                        assert(spec_parse_x12(self@, input@) == Err::<InterchangeControlView,
                            ParseFault>(ParseFault::BadTransactionHeader(recs[k as int])));
                    }
                    return Err(EdiError::InvalidSegmentFormat(records[k].clone()));
                }
                let transaction_set_id = segment.elements[0].clone();
                let control_number = segment.elements[1].clone();
                proof {
                    assert(transaction_set_id@ == segv.elements[0]);
                    assert(control_number@ == segv.elements[1]);
                }
                let mut first: Vec<Segment> = Vec::new();
                first.push(segment);
                proof {
                    assert(first.deep_view() =~= seq![segv]);
                }
                current_transaction = Some(
                    Transaction::new(first, transaction_set_id, control_number),
                );
                proof {
                    let st_new = AsmState {
                        groups: functional_groups.deep_view(),
                        current_group: current_fg.deep_view(),
                        current_transaction: current_transaction.deep_view(),
                        dropped,
                    };
                    assert(current_transaction.deep_view() matches Some(t) && t =~~= (
                    TransactionView {
                        segments: seq![segv],
                        transaction_set_id: segv.elements[0],
                        control_number: segv.elements[1],
                        transaction_type: spec_type_of(segv.elements[0]),
                    }));
                    assert(asm_step(st_prev, segv) matches Some(s) && s =~~= st_new);
                }
            } else if string_eq_str(&segment.id, "SE") {
                let prev_tx = current_transaction;
                current_transaction = None;
                match prev_tx {
                    Some(tx) => {
                        let ghost txv = tx@;
                        let mut tx2 = tx;
                        tx2.segments.push(segment);
                        proof {
                            assert(tx2@ =~~= (TransactionView {
                                segments: txv.segments.push(segv),
                                ..txv
                            }));
                        }
                        let prev_fg = current_fg;
                        current_fg = None;
                        match prev_fg {
                            Some(fg) => {
                                let ghost fgv = fg@;
                                let ghost t2v = tx2@;
                                let mut fg2 = fg;
                                fg2.transactions.push(tx2);
                                proof {
                                    assert(fg2@ =~~= (FunctionalGroupView {
                                        transactions: fgv.transactions.push(t2v),
                                        ..fgv
                                    }));
                                }
                                current_fg = Some(fg2);
                            },
                            None => {
                                proof {
                                    dropped = dropped + tx2@.segments.len();
                                }
                            },
                        }
                    },
                    None => {
                        proof {
                            dropped = dropped + 1;
                        }
                    },
                }
                proof {
                    let st_new = AsmState {
                        groups: functional_groups.deep_view(),
                        current_group: current_fg.deep_view(),
                        current_transaction: current_transaction.deep_view(),
                        dropped,
                    };
                    assert(asm_step(st_prev, segv) matches Some(s) && s =~~= st_new);
                }
            } else {
                let prev_tx = current_transaction;
                current_transaction = None;
                match prev_tx {
                    Some(tx) => {
                        let ghost txv = tx@;
                        let mut tx2 = tx;
                        tx2.segments.push(segment);
                        proof {
                            assert(tx2@ =~~= (TransactionView {
                                segments: txv.segments.push(segv),
                                ..txv
                            }));
                        }
                        current_transaction = Some(tx2);
                    },
                    None => {
                        proof {
                            dropped = dropped + 1;
                        }
                    },
                }
                proof {
                    let st_new = AsmState {
                        groups: functional_groups.deep_view(),
                        current_group: current_fg.deep_view(),
                        current_transaction: current_transaction.deep_view(),
                        dropped,
                    };
                    assert(asm_step(st_prev, segv) matches Some(s) && s =~~= st_new);
                }
            }
            k = k + 1;
        }
        proof {
            assert(segs.take(segs.len() as int) =~= segs);
        }
        let ghost st_end = AsmState {
            groups: functional_groups.deep_view(),
            current_group: current_fg.deep_view(),
            current_transaction: current_transaction.deep_view(),
            dropped,
        };

        // End of input: flush the open transaction and group.
        let prev_tx = current_transaction;
        current_transaction = None;
        match prev_tx {
            Some(tx) => {
                let prev_fg = current_fg;
                current_fg = None;
                match prev_fg {
                    Some(fg) => {
                        let ghost fgv = fg@;
                        let ghost txv = tx@;
                        let mut fg2 = fg;
                        fg2.transactions.push(tx);
                        proof {
                            assert(fg2@ =~~= (FunctionalGroupView {
                                transactions: fgv.transactions.push(txv),
                                ..fgv
                            }));
                        }
                        current_fg = Some(fg2);
                    },
                    None => {
                        proof {
                            dropped = dropped + tx@.segments.len();
                        }
                    },
                }
            },
            None => {},
        }
        proof {
            let st_flushed = AsmState {
                groups: functional_groups.deep_view(),
                current_group: current_fg.deep_view(),
                current_transaction: current_transaction.deep_view(),
                dropped,
            };
            assert(asm_flush_transaction(st_end) =~~= st_flushed);
        }
        let ghost st_flushed = asm_flush_transaction(st_end);
        let prev_fg = current_fg;
        current_fg = None;
        match prev_fg {
            Some(fg) => {
                let ghost gprev = functional_groups.deep_view();
                functional_groups.push(fg);
                proof {
                    assert(functional_groups.deep_view() =~= gprev.push(fg@));
                }
            },
            None => {},
        }
        proof {
            assert(functional_groups.deep_view() =~= asm_finish(st_end).0);
        }

        let iea_segment = match find_iea(&records, &parser) {
            Ok(o) => o,
            Err(e) => {
                proof {
                    assert(false);
                }
                return Err(e);
            },
        };
        let version = match X12Version::from_isa(&isa_segment) {
            Ok(v) => v,
            Err(e) => {
                proof {
                    assert(false);
                }
                return Err(e);
            },
        };
        let ic = InterchangeControl { isa_segment, iea_segment, functional_groups, version };
        proof {
            let expected = spec_parse_x12(self@, input@)->Ok_0;
            assert(ic@ =~~= expected);
        }
        Ok(ic)
    }
}

// ---------------------------------------------------------------------------
// Structural validation
// ---------------------------------------------------------------------------

/// Trailer/header control numbers agree whenever both are present at their
/// fixed positions.
pub open spec fn ctrl_numbers_match(hdr: SegmentView, hpos: int, trl: SegmentView, tpos: int)
    -> bool {
    hdr.elements.len() > hpos && trl.elements.len() > tpos ==> hdr.elements[hpos]
        == trl.elements[tpos]
}

/// A transaction's envelope: it starts with its header, ends with its
/// trailer, and their control numbers agree when both are present.
pub open spec fn spec_tx_envelope_ok(tx: TransactionView) -> bool {
    tx.segments.len() > 0 ==> (tx.segments[0].id == "ST"@ && tx.segments.last().id == "SE"@
        && ctrl_numbers_match(tx.segments[0], 1, tx.segments.last(), 1))
}

/// A functional group's envelope.
pub open spec fn spec_group_ok(fg: FunctionalGroupView) -> bool {
    &&& fg.gs_segment.id == "GS"@
    &&& (fg.ge_segment matches Some(ge) ==> ge.id == "GE"@ && ctrl_numbers_match(
        fg.gs_segment,
        5,
        ge,
        1,
    ))
    &&& forall|t: int|
        0 <= t < fg.transactions.len() ==> spec_tx_envelope_ok(#[trigger] fg.transactions[t])
}

/// Envelope sanity of a whole interchange: correct control segment
/// identifiers and matching control numbers at every level where a trailer is
/// present.
pub open spec fn spec_structural_ok(ic: InterchangeControlView) -> bool {
    &&& ic.isa_segment.id == "ISA"@
    &&& ic.isa_segment.elements.len() >= 15
    &&& (ic.iea_segment matches Some(iea) ==> iea.id == "IEA"@ && ctrl_numbers_match(
        ic.isa_segment,
        12,
        iea,
        1,
    ))
    &&& forall|g: int|
        0 <= g < ic.functional_groups.len() ==> spec_group_ok(#[trigger] ic.functional_groups[g])
}

/// The error returned names a violation the interchange really has.
pub open spec fn spec_structural_fault(ic: InterchangeControlView, e: EdiError) -> bool {
    ||| (e matches EdiError::MissingRequiredSegment(m) && m@ == "ISA"@ && ic.isa_segment.id
        != "ISA"@)
    ||| (e matches EdiError::InvalidSegmentFormat(m) && m@
        == "ISA segment must have at least 15 elements"@ && ic.isa_segment.elements.len() < 15)
    ||| (e matches EdiError::InvalidControlStructure && ((ic.iea_segment matches Some(iea) && iea.id
        != "IEA"@) || exists|g: int|
        0 <= g < ic.functional_groups.len() && ((#[trigger] ic.functional_groups[g]).ge_segment
            matches Some(ge) && ge.id != "GE"@)))
    ||| (e matches EdiError::ValidationError(m) && m@ == "IEA control number doesn't match ISA"@
        && (ic.iea_segment matches Some(iea) && !ctrl_numbers_match(ic.isa_segment, 12, iea, 1)))
    ||| (e matches EdiError::ValidationError(m) && m@ == "GE control number doesn't match GS"@
        && exists|g: int|
        0 <= g < ic.functional_groups.len() && ((#[trigger] ic.functional_groups[g]).ge_segment
            matches Some(ge) && !ctrl_numbers_match(ic.functional_groups[g].gs_segment, 5, ge, 1)))
    ||| (e matches EdiError::ValidationError(m) && m@ == "SE control number doesn't match ST"@
        && exists|g: int, t: int|
        0 <= g < ic.functional_groups.len() && 0 <= t
            < ic.functional_groups[g].transactions.len() && !spec_tx_envelope_ok(
            #[trigger] ic.functional_groups[g].transactions[t],
        ))
    ||| (e matches EdiError::MissingRequiredSegment(m) && m@ == "GS"@ && exists|g: int|
        0 <= g < ic.functional_groups.len() && (#[trigger] ic.functional_groups[g]).gs_segment.id
            != "GS"@)
    ||| (e matches EdiError::MissingRequiredSegment(m) && (m@ == "ST"@ || m@ == "SE"@) && exists|
        g: int,
        t: int,
    |
        0 <= g < ic.functional_groups.len() && 0 <= t
            < ic.functional_groups[g].transactions.len() && !spec_tx_envelope_ok(
            #[trigger] ic.functional_groups[g].transactions[t],
        ))
}

impl X12Parser {
    /// Check envelope sanity of an assembled interchange: control segment
    /// identifiers, and control-number equality at the interchange, group and
    /// transaction levels wherever the trailer is present.  Returns the first
    /// violation; succeeds exactly when none exists.
    pub fn validate(&self, interchange: &InterchangeControl) -> (r: Result<(), EdiError>)
        ensures
            r is Ok <==> spec_structural_ok(interchange@),
            r matches Err(e) ==> spec_structural_fault(interchange@, e),
    {
        let ghost icv = interchange@;
        if !string_eq_str(&interchange.isa_segment.id, "ISA") {
            return Err(EdiError::MissingRequiredSegment(String::from_str("ISA")));
        }
        if interchange.isa_segment.elements.len() < 15 {
            return Err(
                EdiError::InvalidSegmentFormat(
                    String::from_str("ISA segment must have at least 15 elements"),
                ),
            );
        }
        match &interchange.iea_segment {
            Some(iea) => {
                proof {
                    assert(icv.iea_segment == Some(iea@));
                }
                if !string_eq_str(&iea.id, "IEA") {
                    return Err(EdiError::InvalidControlStructure);
                }
                if interchange.isa_segment.elements.len() > 12 && iea.elements.len() > 1 {
                    proof {
                        assert(icv.isa_segment.elements[12]
                            == interchange.isa_segment.elements@[12]@);
                        assert(iea@.elements[1] == iea.elements@[1]@);
                    }
                    if !(interchange.isa_segment.elements[12] == iea.elements[1]) {
                        return Err(
                            EdiError::ValidationError(
                                String::from_str("IEA control number doesn't match ISA"),
                            ),
                        );
                    }
                }
            },
            None => {},
        }
        let mut g: usize = 0;
        while g < interchange.functional_groups.len()
            invariant
                g <= interchange.functional_groups.len(),
                icv == interchange@,
                icv.isa_segment.id == "ISA"@,
                icv.isa_segment.elements.len() >= 15,
                (icv.iea_segment matches Some(iea) ==> iea.id == "IEA"@ && ctrl_numbers_match(
                    icv.isa_segment,
                    12,
                    iea,
                    1,
                )),
                forall|k: int| 0 <= k < g ==> spec_group_ok(#[trigger] icv.functional_groups[k]),
            decreases interchange.functional_groups.len() - g,
        {
            let fg = &interchange.functional_groups[g];
            let ghost fgv = icv.functional_groups[g as int];
            proof {
                assert(fgv == interchange.functional_groups@[g as int]@);
            }
            if !string_eq_str(&fg.gs_segment.id, "GS") {
                proof {
                    assert(!spec_group_ok(fgv));
                }
                return Err(EdiError::MissingRequiredSegment(String::from_str("GS")));
            }
            match &fg.ge_segment {
                Some(ge) => {
                    proof {
                        assert(fgv.ge_segment == Some(ge@));
                    }
                    if !string_eq_str(&ge.id, "GE") {
                        proof {
                            assert(!spec_group_ok(fgv));
                        }
                        return Err(EdiError::InvalidControlStructure);
                    }
                    if fg.gs_segment.elements.len() > 5 && ge.elements.len() > 1 {
                        proof {
                            assert(fgv.gs_segment.elements[5] == fg.gs_segment.elements@[5]@);
                            assert(ge@.elements[1] == ge.elements@[1]@);
                        }
                        if !(fg.gs_segment.elements[5] == ge.elements[1]) {
                            proof {
                                assert(!spec_group_ok(fgv));
                            }
                            return Err(
                                EdiError::ValidationError(
                                    String::from_str("GE control number doesn't match GS"),
                                ),
                            );
                        }
                    }
                },
                None => {},
            }
            let mut t: usize = 0;
            while t < fg.transactions.len()
                invariant
                    t <= fg.transactions.len(),
                    icv == interchange@,
                    fgv == icv.functional_groups[g as int],
                    0 <= g < icv.functional_groups.len(),
                    fgv == interchange.functional_groups@[g as int]@,
                    fg == &interchange.functional_groups[g as int],
                    forall|k: int|
                        0 <= k < t ==> spec_tx_envelope_ok(#[trigger] fgv.transactions[k]),
                decreases fg.transactions.len() - t,
            {
                let tx = &fg.transactions[t];
                let ghost txv = fgv.transactions[t as int];
                proof {
                    assert(txv == fg.transactions@[t as int]@);
                }
                if tx.segments.len() > 0 {
                    let n = tx.segments.len();
                    proof {
                        assert(txv.segments[0] == tx.segments@[0]@);
                        assert(txv.segments[n - 1] == tx.segments@[n - 1]@);
                    }
                    if !string_eq_str(&tx.segments[0].id, "ST") {
                        proof {
                            assert(!spec_tx_envelope_ok(txv));
                            assert(!spec_group_ok(fgv));
                        }
                        return Err(EdiError::MissingRequiredSegment(String::from_str("ST")));
                    }
                    if !string_eq_str(&tx.segments[n - 1].id, "SE") {
                        proof {
                            assert(!spec_tx_envelope_ok(txv));
                            assert(!spec_group_ok(fgv));
                        }
                        return Err(EdiError::MissingRequiredSegment(String::from_str("SE")));
                    }
                    if tx.segments[0].elements.len() > 1 && tx.segments[n - 1].elements.len()
                        > 1 {
                        proof {
                            assert(txv.segments[0].elements[1] == tx.segments@[0].elements@[1]@);
                            assert(txv.segments[n - 1].elements[1] == tx.segments@[n
                                - 1].elements@[1]@);
                        }
                        if !(tx.segments[0].elements[1] == tx.segments[n - 1].elements[1]) {
                            proof {
                                assert(!spec_tx_envelope_ok(txv));
                                assert(!spec_group_ok(fgv));
                            }
                            return Err(
                                EdiError::ValidationError(
                                    String::from_str("SE control number doesn't match ST"),
                                ),
                            );
                        }
                    }
                    proof {
                        assert(spec_tx_envelope_ok(txv));
                    }
                }
                t = t + 1;
            }
            proof {
                assert(spec_group_ok(fgv));
            }
            g = g + 1;
        }
        Ok(())
    }
}

impl super::EdiParser for X12Parser {
    fn parse(&self, input: &str) -> Result<InterchangeControl, EdiError> {
        X12Parser::parse(self, input)
    }

    fn validate(&self, interchange: &InterchangeControl) -> Result<(), EdiError> {
        X12Parser::validate(self, interchange)
    }
}

// ---------------------------------------------------------------------------
// Control-number symmetry
// ---------------------------------------------------------------------------

/// With both interchange header and trailer present and every other envelope
/// check passing, structural validation succeeds exactly when the interchange
/// control numbers agree.
pub proof fn lemma_control_number_symmetry(ic: InterchangeControlView, iea: SegmentView)
    requires
        ic.isa_segment.id == "ISA"@,
        ic.isa_segment.elements.len() >= 15,
        ic.iea_segment == Some(iea),
        iea.id == "IEA"@,
        iea.elements.len() > 1,
        forall|g: int|
            0 <= g < ic.functional_groups.len() ==> spec_group_ok(
                #[trigger] ic.functional_groups[g],
            ),
    ensures
        spec_structural_ok(ic) <==> ic.isa_segment.elements[12] == iea.elements[1],
{
}

/// With both group header and trailer present and every transaction's
/// envelope in order, a group passes exactly when the group control numbers
/// agree.
pub proof fn lemma_group_control_number_symmetry(fg: FunctionalGroupView, ge: SegmentView)
    requires
        fg.gs_segment.id == "GS"@,
        fg.gs_segment.elements.len() > 5,
        fg.ge_segment == Some(ge),
        ge.id == "GE"@,
        ge.elements.len() > 1,
        forall|t: int|
            0 <= t < fg.transactions.len() ==> spec_tx_envelope_ok(#[trigger] fg.transactions[t]),
    ensures
        spec_group_ok(fg) <==> fg.gs_segment.elements[5] == ge.elements[1],
{
}

/// With a transaction bounded by its header and trailer, both carrying a
/// control number, the envelope passes exactly when the two numbers agree.
pub proof fn lemma_transaction_control_number_symmetry(tx: TransactionView)
    requires
        tx.segments.len() > 0,
        tx.segments[0].id == "ST"@,
        tx.segments.last().id == "SE"@,
        tx.segments[0].elements.len() > 1,
        tx.segments.last().elements.len() > 1,
    ensures
        spec_tx_envelope_ok(tx) <==> tx.segments[0].elements[1] == tx.segments.last().elements[1],
{
}

// ---------------------------------------------------------------------------
// Serialization, and the round trip with tokenization
// ---------------------------------------------------------------------------

/// A segment's text: its identifier and elements joined by the element
/// separator.
pub open spec fn spec_serialize_segment(seg: SegmentView, esep: char) -> Seq<char> {
    spec_join(seq![seg.id] + seg.elements, esep)
}

/// A document's text: each segment's text, joined by the segment separator.
pub open spec fn spec_serialize(segs: Seq<SegmentView>, esep: char, ssep: char) -> Seq<char> {
    spec_join(segs.map(|i: int, s: SegmentView| spec_serialize_segment(s, esep)), ssep)
}

/// The segment list a document tokenizes to.
pub open spec fn spec_tokenize(doc: Seq<char>, esep: char, ssep: char, trim: bool) -> Seq<
    SegmentView,
> {
    spec_records(doc, ssep).map(|i: int, r: Seq<char>| spec_parse_segment(r, esep, trim))
}

/// Render one segment with the given element separator.
pub fn serialize_segment(seg: &Segment, esep: char) -> (r: String)
    ensures
        r@ == spec_serialize_segment(seg@, esep),
{
    let mut parts: Vec<String> = Vec::new();
    parts.push(seg.id.clone());
    let mut i: usize = 0;
    while i < seg.elements.len()
        invariant
            i <= seg.elements.len(),
            parts.deep_view() =~= seq![seg.id@] + seg.elements.deep_view().take(i as int),
        decreases seg.elements.len() - i,
    {
        let ghost prev = parts.deep_view();
        let e = seg.elements[i].clone();
        proof {
            assert(e@ == seg.elements.deep_view()[i as int]);
        }
        parts.push(e);
        proof {
            assert(parts.deep_view() =~= prev.push(seg.elements.deep_view()[i as int]));
            assert(parts.deep_view() =~= seq![seg.id@] + seg.elements.deep_view().take(
                i as int + 1,
            ));
        }
        i = i + 1;
    }
    proof {
        assert(parts.deep_view() =~= seq![seg@.id] + seg@.elements);
    }
    crate::utils::join_strings(&parts, esep)
}

/// Render a segment list with the given separators.
pub fn serialize_segments(segments: &Vec<Segment>, esep: char, ssep: char) -> (r: String)
    ensures
        r@ == spec_serialize(segments.deep_view(), esep, ssep),
{
    let ghost f = |i: int, s: SegmentView| spec_serialize_segment(s, esep);
    let mut texts: Vec<String> = Vec::new();
    let mut i: usize = 0;
    while i < segments.len()
        invariant
            i <= segments.len(),
            texts.deep_view() =~= segments.deep_view().map(f).take(i as int),
            f == (|i: int, s: SegmentView| spec_serialize_segment(s, esep)),
        decreases segments.len() - i,
    {
        let ghost prev = texts.deep_view();
        let t = serialize_segment(&segments[i], esep);
        proof {
            assert(segments[i as int]@ == segments.deep_view()[i as int]);
        }
        texts.push(t);
        proof {
            assert(texts.deep_view() =~= prev.push(spec_serialize_segment(
                segments.deep_view()[i as int],
                esep,
            )));
            assert(texts.deep_view() =~= segments.deep_view().map(f).take(i as int + 1));
        }
        i = i + 1;
    }
    proof {
        assert(texts.deep_view() =~= segments.deep_view().map(f));
    }
    crate::utils::join_strings(&texts, ssep)
}

/// Tokenize a document: records split on the segment separator, blanks
/// discarded, each record split on the element separator.
pub fn tokenize_document(input: &str, esep: char, ssep: char, trim: bool) -> (r: Vec<Segment>)
    ensures
        r.deep_view() == spec_tokenize(input@, esep, ssep, trim),
{
    let ghost f = |i: int, rec: Seq<char>| spec_parse_segment(rec, esep, trim);
    let records = split_records(input, ssep);
    let mut r: Vec<Segment> = Vec::new();
    let mut i: usize = 0;
    while i < records.len()
        invariant
            i <= records.len(),
            records.deep_view() == spec_records(input@, ssep),
            r.deep_view() =~= records.deep_view().map(f).take(i as int),
            f == (|i: int, rec: Seq<char>| spec_parse_segment(rec, esep, trim)),
        decreases records.len() - i,
    {
        let ghost prev = r.deep_view();
        let seg = parse_record(records[i].as_str(), esep, trim);
        proof {
            assert(records@[i as int]@ == records.deep_view()[i as int]);
        }
        r.push(seg);
        proof {
            assert(r.deep_view() =~= prev.push(spec_parse_segment(
                records.deep_view()[i as int],
                esep,
                trim,
            )));
            assert(r.deep_view() =~= records.deep_view().map(f).take(i as int + 1));
        }
        i = i + 1;
    }
    proof {
        assert(r.deep_view() =~= records.deep_view().map(f));
    }
    r
}

/// A segment that survives the round trip: its identifier starts with a
/// printing character, and no field contains a separator or loses anything to
/// trimming.
pub open spec fn segment_round_trip_safe(seg: SegmentView, esep: char, ssep: char) -> bool {
    &&& seg.id.len() > 0
    &&& !crate::utils::is_space(seg.id[0])
    &&& spec_trim(seg.id) == seg.id
    &&& !crate::utils::seq_contains_char(seg.id, esep)
    &&& !crate::utils::seq_contains_char(seg.id, ssep)
    &&& forall|i: int|
        0 <= i < seg.elements.len() ==> spec_trim(#[trigger] seg.elements[i]) == seg.elements[i]
            && !crate::utils::seq_contains_char(seg.elements[i], esep)
            && !crate::utils::seq_contains_char(seg.elements[i], ssep)
}

/// Joining pieces that avoid a character, with a different separator, yields
/// text that avoids it too.
proof fn lemma_join_no_char(parts: Seq<Seq<char>>, sep: char, c: char)
    requires
        c != sep,
        forall|i: int|
            0 <= i < parts.len() ==> !crate::utils::seq_contains_char(#[trigger] parts[i], c),
    ensures
        !crate::utils::seq_contains_char(spec_join(parts, sep), c),
    decreases parts.len(),
{
    if parts.len() == 0 {
    } else if parts.len() == 1 {
        assert(spec_join(parts, sep) == parts[0]);
    } else {
        lemma_join_no_char(parts.drop_first(), sep, c);
        let j = spec_join(parts, sep);
        let rest = spec_join(parts.drop_first(), sep);
        assert(j == parts[0] + seq![sep] + rest);
        assert forall|k: int| 0 <= k < j.len() implies j[k] != c by {
            if k < parts[0].len() {
                assert(j[k] == parts[0][k]);
                assert(!crate::utils::seq_contains_char(parts[0], c));
            } else if k == parts[0].len() {
                assert(j[k] == sep);
            } else {
                assert(j[k] == rest[k - parts[0].len() - 1]);
            }
        }
    }
}

/// Dropping blanks from a list with none changes nothing.
proof fn lemma_drop_blank_of_nonblank(parts: Seq<Seq<char>>)
    requires
        forall|i: int| 0 <= i < parts.len() ==> spec_trim(#[trigger] parts[i]).len() > 0,
    ensures
        spec_drop_blank(parts) == parts,
    decreases parts.len(),
{
    if parts.len() > 0 {
        lemma_drop_blank_of_nonblank(parts.drop_last());
        assert(spec_drop_blank(parts) =~= parts);
    }
}

/// A safe segment's text is non-blank and contains no segment separator, and
/// splitting it on the element separator recovers identifier and elements.
proof fn lemma_serialize_segment_safe(seg: SegmentView, esep: char, ssep: char)
    requires
        esep != ssep,
        segment_round_trip_safe(seg, esep, ssep),
    ensures
        !crate::utils::seq_contains_char(spec_serialize_segment(seg, esep), ssep),
        spec_serialize_segment(seg, esep).len() > 0,
        spec_serialize_segment(seg, esep)[0] == seg.id[0],
        spec_trim(spec_serialize_segment(seg, esep)).len() > 0,
        spec_split(spec_serialize_segment(seg, esep), esep) == seq![seg.id] + seg.elements,
{
    let parts = seq![seg.id] + seg.elements;
    let text = spec_serialize_segment(seg, esep);
    assert(forall|i: int|
        0 <= i < parts.len() ==> !crate::utils::seq_contains_char(#[trigger] parts[i], ssep));
    lemma_join_no_char(parts, esep, ssep);
    assert(forall|i: int|
        0 <= i < parts.len() ==> !crate::utils::seq_contains_char(#[trigger] parts[i], esep));
    crate::utils::lemma_split_join(parts, esep);
    if parts.len() == 1 {
        assert(text == seg.id);
    } else {
        assert(text == parts[0] + seq![esep] + spec_join(parts.drop_first(), esep));
        assert(text[0] == seg.id[0]);
    }
    crate::utils::lemma_trim_front_of_nonspace_head(text);
    crate::utils::lemma_trim_back_no_trailing_space(text);
}

/// Delimiter round trip: serializing a safe segment list with the separators
/// in effect and tokenizing it again yields the same list.
pub proof fn lemma_delimiter_round_trip(segs: Seq<SegmentView>, esep: char, ssep: char, trim: bool)
    requires
        segs.len() > 0,
        esep != ssep,
        forall|i: int| 0 <= i < segs.len() ==> segment_round_trip_safe(#[trigger] segs[i], esep, ssep),
    ensures
        spec_tokenize(spec_serialize(segs, esep, ssep), esep, ssep, trim) == segs,
{
    let f = |i: int, s: SegmentView| spec_serialize_segment(s, esep);
    let texts = segs.map(f);
    let doc = spec_join(texts, ssep);
    assert forall|i: int| 0 <= i < texts.len() implies !crate::utils::seq_contains_char(
        #[trigger] texts[i],
        ssep,
    ) && spec_trim(texts[i]).len() > 0 by {
        lemma_serialize_segment_safe(segs[i], esep, ssep);
    }
    crate::utils::lemma_split_join(texts, ssep);
    assert(spec_split(doc, ssep) == texts);
    lemma_drop_blank_of_nonblank(texts);
    assert(spec_records(doc, ssep) == texts);
    let toks = spec_tokenize(doc, esep, ssep, trim);
    assert forall|i: int| 0 <= i < segs.len() implies toks[i] == segs[i] by {
        lemma_serialize_segment_safe(segs[i], esep, ssep);
        let parts = seq![segs[i].id] + segs[i].elements;
        assert(spec_split(texts[i], esep) == parts);
        let trimmed = spec_map_trim(parts, trim);
        if trim {
            assert forall|k: int| 0 <= k < parts.len() implies spec_trim(#[trigger] parts[k])
                == parts[k] by {
                if k == 0 {
                    assert(parts[0] == segs[i].id);
                } else {
                    assert(parts[k] == segs[i].elements[k - 1]);
                }
            }
            assert(trimmed =~= parts);
        }
        assert(trimmed[0] == segs[i].id);
        assert(trimmed.drop_first() =~= segs[i].elements);
        assert(toks[i] =~~= segs[i]);
    }
    assert(toks =~= segs);
}

// ---------------------------------------------------------------------------
// Hierarchy conservation
// ---------------------------------------------------------------------------

/// Segments stored across a transaction list.
pub open spec fn tx_seg_count(txs: Seq<TransactionView>) -> nat
    decreases txs.len(),
{
    if txs.len() == 0 {
        0
    } else {
        tx_seg_count(txs.drop_last()) + txs.last().segments.len()
    }
}

/// Segments stored in one group: its header, its trailer when present, and
/// its transactions' segments.
pub open spec fn group_seg_count(fg: FunctionalGroupView) -> nat {
    1 + (if fg.ge_segment is Some {
        1nat
    } else {
        0nat
    }) + tx_seg_count(fg.transactions)
}

/// Segments stored across a group list.
pub open spec fn groups_seg_count(groups: Seq<FunctionalGroupView>) -> nat
    decreases groups.len(),
{
    if groups.len() == 0 {
        0
    } else {
        groups_seg_count(groups.drop_last()) + group_seg_count(groups.last())
    }
}

/// Transaction segments stored across a group list.
pub open spec fn tx_seg_total(groups: Seq<FunctionalGroupView>) -> nat
    decreases groups.len(),
{
    if groups.len() == 0 {
        0
    } else {
        tx_seg_total(groups.drop_last()) + tx_seg_count(groups.last().transactions)
    }
}

/// Group trailers attached across a group list.
pub open spec fn ge_tally(groups: Seq<FunctionalGroupView>) -> nat
    decreases groups.len(),
{
    if groups.len() == 0 {
        0
    } else {
        ge_tally(groups.drop_last()) + (if groups.last().ge_segment is Some {
            1nat
        } else {
            0nat
        })
    }
}

/// Occurrences of a segment identifier.
pub open spec fn count_id(segs: Seq<SegmentView>, id: Seq<char>) -> nat
    decreases segs.len(),
{
    if segs.len() == 0 {
        0
    } else {
        count_id(segs.drop_last(), id) + (if segs.last().id == id {
            1nat
        } else {
            0nat
        })
    }
}

/// Everything a state accounts for: stored segments plus discarded ones.
pub open spec fn state_count(st: AsmState) -> nat {
    groups_seg_count(st.groups) + (match st.current_group {
        Some(fg) => group_seg_count(fg),
        None => 0nat,
    }) + (match st.current_transaction {
        Some(tx) => tx.segments.len(),
        None => 0nat,
    }) + st.dropped
}

proof fn lemma_push_group_counts(groups: Seq<FunctionalGroupView>, fg: FunctionalGroupView)
    ensures
        groups_seg_count(groups.push(fg)) == groups_seg_count(groups) + group_seg_count(fg),
        ge_tally(groups.push(fg)) == ge_tally(groups) + (if fg.ge_segment is Some {
            1nat
        } else {
            0nat
        }),
        tx_seg_total(groups.push(fg)) == tx_seg_total(groups) + tx_seg_count(fg.transactions),
{
    assert(groups.push(fg).drop_last() =~= groups);
    assert(groups.push(fg).last() == fg);
}

proof fn lemma_push_tx_count(txs: Seq<TransactionView>, tx: TransactionView)
    ensures
        tx_seg_count(txs.push(tx)) == tx_seg_count(txs) + tx.segments.len(),
{
    assert(txs.push(tx).drop_last() =~= txs);
    assert(txs.push(tx).last() == tx);
}

proof fn lemma_flush_counts(st: AsmState)
    ensures
        state_count(asm_flush_transaction(st)) == state_count(st),
        ge_tally(asm_flush_transaction(st).groups) == ge_tally(st.groups),
        asm_flush_transaction(st).groups == st.groups,
        (st.current_group matches Some(fg) && fg.ge_segment is None) ==> (asm_flush_transaction(
            st,
        ).current_group matches Some(fg2) && fg2.ge_segment is None),
        asm_flush_transaction(st).current_group is Some <==> st.current_group is Some,
{
    match st.current_transaction {
        Some(tx) => match st.current_group {
            Some(fg) => {
                lemma_push_tx_count(fg.transactions, tx);
            },
            None => {},
        },
        None => {},
    }
}

proof fn lemma_asm_invariants(segs: Seq<SegmentView>)
    requires
        asm_fold(segs) is Some,
    ensures
        ({
            let st = asm_fold(segs)->Some_0;
            &&& state_count(st) == segs.len()
            &&& st.groups.len() + (if st.current_group is Some {
                1nat
            } else {
                0nat
            }) == count_id(segs, "GS"@)
            &&& (st.current_group matches Some(fg) ==> fg.ge_segment is None)
            &&& ge_tally(st.groups) <= count_id(segs, "GE"@)
            &&& count_id(segs, "GE"@) - ge_tally(st.groups) <= st.dropped
        }),
    decreases segs.len(),
{
    if segs.len() > 0 {
        lemma_asm_invariants(segs.drop_last());
        assert("GS"@ != "GE"@) by {
            reveal_strlit("GS");
            reveal_strlit("GE");
            assert("GS"@[1] == 'S' && "GE"@[1] == 'E');
        }
        let st0 = asm_fold(segs.drop_last())->Some_0;
        let seg = segs.last();
        let st = asm_fold(segs)->Some_0;
        if seg.id == "GS"@ {
            match st0.current_group {
                Some(fg) => {
                    assert(st.groups =~= st0.groups.push(fg));
                    lemma_push_group_counts(st0.groups, fg);
                },
                None => {},
            }
        } else if seg.id == "GE"@ {
            match st0.current_group {
                Some(fg) => {
                    let fg2 = FunctionalGroupView { ge_segment: Some(seg), ..fg };
                    assert(st.groups =~= st0.groups.push(fg2));
                    lemma_push_group_counts(st0.groups, fg2);
                },
                None => {},
            }
        } else if seg.id == "ST"@ {
            lemma_flush_counts(st0);
        } else if seg.id == "SE"@ {
            match st0.current_transaction {
                Some(tx) => {
                    let tx2 = TransactionView { segments: tx.segments.push(seg), ..tx };
                    match st0.current_group {
                        Some(fg) => {
                            lemma_push_tx_count(fg.transactions, tx2);
                        },
                        None => {},
                    }
                },
                None => {},
            }
        } else {
        }
    }
}

proof fn lemma_groups_decompose(groups: Seq<FunctionalGroupView>)
    ensures
        groups_seg_count(groups) == groups.len() + ge_tally(groups) + tx_seg_total(groups),
    decreases groups.len(),
{
    if groups.len() > 0 {
        lemma_groups_decompose(groups.drop_last());
    }
}

/// Hierarchy conservation: every segment handed to the assembler is either
/// stored in a transaction, stands as a group header or as an attached group
/// trailer, or was discarded; nothing is duplicated and nothing else is lost.
/// Each group header in the input opens exactly one group, and when nothing
/// was discarded every group trailer in the input is attached.
pub proof fn lemma_hierarchy_conservation(segs: Seq<SegmentView>)
    requires
        asm_fold(segs) is Some,
    ensures
        ({
            let (groups, dropped) = asm_finish(asm_fold(segs)->Some_0);
            &&& tx_seg_total(groups) + groups.len() + ge_tally(groups) + dropped == segs.len()
            &&& groups.len() == count_id(segs, "GS"@)
            &&& dropped == 0 ==> ge_tally(groups) == count_id(segs, "GE"@)
        }),
{
    lemma_asm_invariants(segs);
    let st = asm_fold(segs)->Some_0;
    lemma_flush_counts(st);
    let st1 = asm_flush_transaction(st);
    let (groups, dropped) = asm_finish(st);
    match st1.current_group {
        Some(fg) => {
            assert(groups =~= st1.groups.push(fg));
            lemma_push_group_counts(st1.groups, fg);
            assert(groups.len() == st1.groups.len() + 1);
        },
        None => {},
    }
    assert(groups_seg_count(groups) + dropped == segs.len());
    assert(groups.len() == count_id(segs, "GS"@));
    assert(ge_tally(groups) <= count_id(segs, "GE"@));
    assert(count_id(segs, "GE"@) - ge_tally(groups) <= dropped);
    lemma_groups_decompose(groups);
}

} // verus!
