use crate::error::EdiError;
use crate::models::interchange::{FunctionalGroupView, InterchangeControlView};
use crate::models::schema_engine::{
    spec_schema_lookup, spec_structure_results, SchemaEngine, TxSetEntryView, ValidationResult,
    ValidationResultType, ValidationResultView,
};
use crate::models::segment::{Segment, SegmentView};
use crate::models::segment_definition::{
    spec_registry_lookup, spec_validate_element_value, standard_entries, RegistryEntryView,
    SegmentRegistry, X12Version,
};
use crate::models::transaction::TransactionView;
use crate::models::validated_element::ValidatedElement;
use crate::parsers::x12::{spec_parse_x12, ParseFault, X12Parser};
use crate::utils::{spec_dec, string_eq_str, usize_to_string};
use vstd::prelude::*;

verus! {

/// Configuration of schema-driven parsing.
#[derive(Debug, Clone)]
pub struct ParsingConfig {
    pub version: X12Version,
    pub trading_partner_id: Option<String>,
    pub validation_level: ValidationLevel,
    pub continue_on_error: bool,
    pub collect_validation_details: bool,
}

/// How deep validation goes.
#[derive(Debug, Clone, Copy, PartialEq, Eq, Structural)]
pub enum ValidationLevel {
    /// Basic syntax validation only.
    Basic,
    /// Schema-aware validation with element checks.
    Standard,
    /// Validation including trading-partner rules.
    Strict,
    /// Full validation with business rule checks.
    Complete,
}

/// Aggregated validity of one transaction.
#[derive(Debug, Clone, Copy, PartialEq, Eq, Structural)]
pub enum ValidationStatus {
    Valid,
    ValidWithWarnings,
    Invalid,
    Unknown,
}

/// Overall outcome of one parse.
#[derive(Debug, Clone, Copy, PartialEq, Eq, Structural)]
pub enum ParsingStatus {
    Success,
    SuccessWithWarnings,
    PartialSuccess,
    Failed,
}

/// One parsed segment with its validation context.
#[derive(Debug)]
pub struct ValidatedSegment {
    pub segment: Segment,
    pub validated_elements: Vec<ValidatedElement>,
    pub validation_results: Vec<ValidationResult>,
    pub schema_context: SegmentSchemaContext,
}

/// Where a segment stands within its transaction.
#[derive(Debug)]
pub struct SegmentSchemaContext {
    pub transaction_type: Option<String>,
    pub hierarchy_level: u32,
    pub transaction_position: usize,
    pub loop_context: Option<String>,
    pub requirement_status: SegmentRequirementStatus,
}

#[derive(Debug, Clone, Copy, PartialEq, Eq, Structural)]
pub enum SegmentRequirementStatus {
    Required,
    Optional,
    Conditional,
    Unknown,
}

/// One transaction's summary.
#[derive(Debug)]
pub struct TransactionSummary {
    pub transaction_type: String,
    pub version: X12Version,
    pub segment_range: (usize, usize),
    pub segment_count: usize,
    pub validation_status: ValidationStatus,
    pub business_context: BusinessContext,
}

/// Business fields extracted from a transaction.
#[derive(Debug)]
pub struct BusinessContext {
    pub trading_partner: Option<String>,
    pub document_date: Option<String>,
    pub document_id: Option<String>,
    pub currency: Option<String>,
    pub total_amount: Option<String>,
}

/// Throughput counters of one parse.  Callers own timing, so the clock
/// fields stay zero here.
#[derive(Debug, Clone)]
pub struct ParsingMetrics {
    pub parsing_time_ms: u64,
    pub validation_time_ms: u64,
    pub memory_usage_bytes: usize,
    pub segments_processed: usize,
    pub elements_validated: usize,
}

/// The outcome of one schema-driven parse.
#[derive(Debug)]
pub struct SchemaParsingResult {
    pub segments: Vec<ValidatedSegment>,
    pub validation_results: Vec<ValidationResult>,
    pub transaction_summaries: Vec<TransactionSummary>,
    pub status: ParsingStatus,
    pub metrics: ParsingMetrics,
}

/// One element reference found across a result.
#[derive(Debug)]
pub struct ElementReference {
    pub element_id: u32,
    pub segment_index: usize,
    pub element_index: usize,
    pub segment_id: String,
    pub value: String,
    pub element_name: String,
}

/// Parses a document and validates every transaction against the engine's
/// layouts and the element catalog.
#[derive(Debug)]
pub struct SchemaValidatingParser {
    x12_parser: X12Parser,
    schema_engine: SchemaEngine,
    segment_registry: SegmentRegistry,
    config: ParsingConfig,
}

// ---------------------------------------------------------------------------
// The parse-and-validate pipeline, as one specification
// ---------------------------------------------------------------------------

/// The transaction type read from the leading transaction header.
pub open spec fn spec_tx_type(tx: TransactionView) -> Option<Seq<char>> {
    if tx.segments.len() > 0 && tx.segments[0].id == "ST"@ && tx.segments[0].elements.len() > 1 {
        Some(tx.segments[0].elements[0])
    } else {
        None
    }
}

pub open spec fn tx_ids(tx: TransactionView) -> Seq<Seq<char>> {
    Seq::new(tx.segments.len(), |i: int| tx.segments[i].id)
}

/// The structure diagnostics of one transaction: the engine's scan, or one
/// error when its type has no registered layout; a transaction without a
/// readable header is not scanned.
pub open spec fn spec_tx_structure_results(
    entries: Seq<TxSetEntryView>,
    version: X12Version,
    tx: TransactionView,
) -> Seq<ValidationResultView> {
    match spec_tx_type(tx) {
        None => Seq::empty(),
        Some(ty) => match spec_schema_lookup(entries, ty, version) {
            Some(schema) => spec_structure_results(schema.segments, tx_ids(tx)),
            None => seq![
                ValidationResultView {
                    result_type: ValidationResultType::Error,
                    message: "Transaction structure validation failed: "@ + (
                    "Validation error: "@ + ("Unknown transaction type: "@ + ty)),
                    segment_position: None,
                    element_position: None,
                },
            ],
        },
    }
}

/// The element diagnostics of one segment: positions with a registered
/// definition are checked, surplus positions warn, and a segment without a
/// registered definition is passed over.
pub open spec fn spec_seg_elem_step(
    reg: Seq<RegistryEntryView>,
    version: X12Version,
    seg: SegmentView,
    segpos: usize,
    k: int,
) -> Seq<ValidationResultView> {
    match spec_registry_lookup(reg, version, seg.id) {
        None => Seq::empty(),
        Some(def) => if k < def.elements.len() {
            match spec_validate_element_value(reg, version, seg.id, k, seg.elements[k]) {
                Some(m) => seq![
                    ValidationResultView {
                        result_type: ValidationResultType::Error,
                        message: "Element validation failed: "@ + ("Validation error: "@ + m),
                        segment_position: Some(segpos),
                        element_position: Some(k as usize),
                    },
                ],
                None => Seq::<ValidationResultView>::empty(),
            }
        } else {
            seq![
                ValidationResultView {
                    result_type: ValidationResultType::Warning,
                    message: "Element position "@ + spec_dec((k + 1) as nat)
                        + " not defined in segment "@ + seg.id,
                    segment_position: Some(segpos),
                    element_position: Some(k as usize),
                },
            ]
        },
    }
}

pub open spec fn spec_seg_elem_results(
    reg: Seq<RegistryEntryView>,
    version: X12Version,
    seg: SegmentView,
    segpos: usize,
    n: int,
) -> Seq<ValidationResultView>
    decreases n,
{
    if n <= 0 {
        Seq::empty()
    } else {
        spec_seg_elem_results(reg, version, seg, segpos, n - 1) + spec_seg_elem_step(
            reg,
            version,
            seg,
            segpos,
            n - 1,
        )
    }
}

pub open spec fn spec_tx_elem_results(
    reg: Seq<RegistryEntryView>,
    version: X12Version,
    tx: TransactionView,
    n: int,
) -> Seq<ValidationResultView>
    decreases n,
{
    if n <= 0 {
        Seq::empty()
    } else {
        spec_tx_elem_results(reg, version, tx, n - 1) + spec_seg_elem_results(
            reg,
            version,
            tx.segments[n - 1],
            (n - 1) as usize,
            tx.segments[n - 1].elements.len() as int,
        )
    }
}

/// Every diagnostic one transaction contributes: the structure scan, then
/// the element checks segment by segment.
pub open spec fn spec_tx_results(
    entries: Seq<TxSetEntryView>,
    reg: Seq<RegistryEntryView>,
    version: X12Version,
    tx: TransactionView,
) -> Seq<ValidationResultView> {
    spec_tx_structure_results(entries, version, tx) + spec_tx_elem_results(
        reg,
        version,
        tx,
        tx.segments.len() as int,
    )
}

/// The transactions of an interchange, group by group.
pub open spec fn all_txs(groups: Seq<FunctionalGroupView>) -> Seq<TransactionView>
    decreases groups.len(),
{
    if groups.len() == 0 {
        Seq::empty()
    } else {
        all_txs(groups.drop_last()) + groups.last().transactions
    }
}

/// The diagnostics of a whole parse, transaction by transaction.
pub open spec fn spec_all_results(
    entries: Seq<TxSetEntryView>,
    reg: Seq<RegistryEntryView>,
    version: X12Version,
    txs: Seq<TransactionView>,
) -> Seq<ValidationResultView>
    decreases txs.len(),
{
    if txs.len() == 0 {
        Seq::empty()
    } else {
        spec_all_results(entries, reg, version, txs.drop_last()) + spec_tx_results(
            entries,
            reg,
            version,
            txs.last(),
        )
    }
}

pub open spec fn total_segments(txs: Seq<TransactionView>) -> nat
    decreases txs.len(),
{
    if txs.len() == 0 {
        0
    } else {
        total_segments(txs.drop_last()) + txs.last().segments.len()
    }
}

pub open spec fn seg_elems_total(segs: Seq<SegmentView>) -> nat
    decreases segs.len(),
{
    if segs.len() == 0 {
        0
    } else {
        seg_elems_total(segs.drop_last()) + segs.last().elements.len()
    }
}

pub open spec fn total_elements(txs: Seq<TransactionView>) -> nat
    decreases txs.len(),
{
    if txs.len() == 0 {
        0
    } else {
        total_elements(txs.drop_last()) + seg_elems_total(txs.last().segments)
    }
}

/// The mathematical content of a `BusinessContext`.
#[verifier::ext_equal]
pub struct BusinessContextView {
    pub trading_partner: Option<Seq<char>>,
    pub document_date: Option<Seq<char>>,
    pub document_id: Option<Seq<char>>,
    pub currency: Option<Seq<char>>,
    pub total_amount: Option<Seq<char>>,
}

impl View for BusinessContext {
    type V = BusinessContextView;

    open spec fn view(&self) -> BusinessContextView {
        BusinessContextView {
            trading_partner: match self.trading_partner {
                Some(ref v) => Some(v@),
                None => None,
            },
            document_date: match self.document_date {
                Some(ref v) => Some(v@),
                None => None,
            },
            document_id: match self.document_id {
                Some(ref v) => Some(v@),
                None => None,
            },
            currency: match self.currency {
                Some(ref v) => Some(v@),
                None => None,
            },
            total_amount: match self.total_amount {
                Some(ref v) => Some(v@),
                None => None,
            },
        }
    }
}

pub open spec fn bc_empty() -> BusinessContextView {
    BusinessContextView {
        trading_partner: None,
        document_date: None,
        document_id: None,
        currency: None,
        total_amount: None,
    }
}

/// One segment's contribution to the business context; positions follow the
/// fixed layout the extraction reads.
pub open spec fn bc_step(bc: BusinessContextView, seg: SegmentView) -> BusinessContextView {
    if seg.id == "BEG"@ {
        BusinessContextView {
            document_id: if seg.elements.len() > 3 {
                Some(seg.elements[3])
            } else {
                bc.document_id
            },
            document_date: if seg.elements.len() > 5 {
                Some(seg.elements[5])
            } else {
                bc.document_date
            },
            ..bc
        }
    } else if seg.id == "CUR"@ {
        BusinessContextView {
            currency: if seg.elements.len() > 2 {
                Some(seg.elements[2])
            } else {
                bc.currency
            },
            ..bc
        }
    } else if seg.id == "N1"@ {
        BusinessContextView {
            trading_partner: if seg.elements.len() > 1 && seg.elements[0] == "BY"@
                && seg.elements.len() > 2 {
                Some(seg.elements[2])
            } else {
                bc.trading_partner
            },
            ..bc
        }
    } else {
        bc
    }
}

pub open spec fn spec_business_context(segs: Seq<SegmentView>, n: int) -> BusinessContextView
    decreases n,
{
    if n <= 0 {
        bc_empty()
    } else {
        bc_step(spec_business_context(segs, n - 1), segs[n - 1])
    }
}

pub open spec fn has_error(rs: Seq<ValidationResultView>) -> bool {
    exists|i: int|
        0 <= i < rs.len() && (#[trigger] rs[i]).result_type == ValidationResultType::Error
}

pub open spec fn has_warning(rs: Seq<ValidationResultView>) -> bool {
    exists|i: int|
        0 <= i < rs.len() && (#[trigger] rs[i]).result_type == ValidationResultType::Warning
}

/// The aggregated validity of one diagnostic list.
pub open spec fn spec_validation_status(rs: Seq<ValidationResultView>) -> ValidationStatus {
    if has_error(rs) {
        ValidationStatus::Invalid
    } else if has_warning(rs) {
        ValidationStatus::ValidWithWarnings
    } else {
        ValidationStatus::Valid
    }
}

/// The overall outcome of one diagnostic list under a continuation policy.
pub open spec fn spec_parsing_status(rs: Seq<ValidationResultView>, continue_on_error: bool)
    -> ParsingStatus {
    if !has_error(rs) && !has_warning(rs) {
        ParsingStatus::Success
    } else if !has_error(rs) {
        ParsingStatus::SuccessWithWarnings
    } else if continue_on_error {
        ParsingStatus::PartialSuccess
    } else {
        ParsingStatus::Failed
    }
}

/// The hierarchy level the context assigns to a segment identifier.
pub open spec fn spec_hier_level(id: Seq<char>) -> u32 {
    if id == "ST"@ || id == "BEG"@ || id == "CUR"@ || id == "REF"@ || id == "PER"@ || id == "DTM"@ {
        0
    } else if id == "SE"@ || id == "CTT"@ {
        2
    } else {
        1
    }
}

/// The requirement status the context assigns to a segment identifier.
pub open spec fn spec_req_status(id: Seq<char>) -> SegmentRequirementStatus {
    if id == "ST"@ || id == "BEG"@ || id == "SE"@ || id == "PO1"@ {
        SegmentRequirementStatus::Required
    } else {
        SegmentRequirementStatus::Optional
    }
}

/// The mathematical content of a `ParsingConfig`.
pub struct ParsingConfigView {
    pub version: X12Version,
    pub trading_partner_id: Option<Seq<char>>,
    pub validation_level: ValidationLevel,
    pub continue_on_error: bool,
    pub collect_validation_details: bool,
}

impl View for ParsingConfig {
    type V = ParsingConfigView;

    open spec fn view(&self) -> ParsingConfigView {
        ParsingConfigView {
            version: self.version,
            trading_partner_id: match self.trading_partner_id {
                Some(ref v) => Some(v@),
                None => None,
            },
            validation_level: self.validation_level,
            continue_on_error: self.continue_on_error,
            collect_validation_details: self.collect_validation_details,
        }
    }
}

impl Default for ParsingConfig {
    /// Standard-depth validation of version 4010 documents, continuing on
    /// errors, collecting details, with no trading partner chosen.
    fn default() -> (r: Self)
        ensures
            r@.version == X12Version::V4010,
            r@.trading_partner_id is None,
            r@.validation_level == ValidationLevel::Standard,
            r@.continue_on_error,
            r@.collect_validation_details,
    {
        ParsingConfig {
            version: X12Version::V4010,
            trading_partner_id: None,
            validation_level: ValidationLevel::Standard,
            continue_on_error: true,
            collect_validation_details: true,
        }
    }
}

/// What one transaction's summary must say.
pub open spec fn summary_matches(
    s: TransactionSummary,
    entries: Seq<TxSetEntryView>,
    reg: Seq<RegistryEntryView>,
    version: X12Version,
    txs: Seq<TransactionView>,
    j: int,
) -> bool {
    &&& s.transaction_type@ == (match spec_tx_type(txs[j]) {
        Some(ty) => ty,
        None => "UNKNOWN"@,
    })
    &&& s.version == version
    &&& s.segment_count == txs[j].segments.len()
    &&& s.segment_range.0 == total_segments(txs.take(j))
    &&& s.segment_range.1 == total_segments(txs.take(j + 1))
    &&& s.validation_status == spec_validation_status(spec_tx_results(entries, reg, version, txs[j]))
    &&& s.business_context@ == spec_business_context(txs[j].segments, txs[j].segments.len() as int)
}

impl SchemaValidatingParser {
    /// The engine's registered layouts.
    pub closed spec fn eng(&self) -> Seq<TxSetEntryView> {
        self.schema_engine@
    }

    /// The element catalog.
    pub closed spec fn sreg(&self) -> Seq<RegistryEntryView> {
        self.segment_registry@
    }

    /// The configuration.
    pub closed spec fn cfg(&self) -> ParsingConfigView {
        self.config@
    }

    /// The inner document parser's settings.
    pub closed spec fn xcfg(&self) -> crate::parsers::x12::X12ParserView {
        self.x12_parser@
    }

    /// A parser over the standard engine and catalog, with the standard
    /// document separators.
    pub fn new(config: ParsingConfig) -> (r: Self)
        ensures
            crate::models::schema_engine::engine_initialized(r.eng()),
            r.sreg() == standard_entries(),
            r.cfg() == config@,
            r.xcfg().element_separator == '*' && r.xcfg().segment_separator == '~'
                && r.xcfg().trim_whitespace,
    {
        SchemaValidatingParser {
            x12_parser: X12Parser::default(),
            schema_engine: SchemaEngine::new(),
            segment_registry: SegmentRegistry::new(),
            config,
        }
    }

    /// The hierarchy level and requirement status a segment gets from its
    /// identifier alone; loop context is left open here.
    fn determine_schema_context(
        &self,
        transaction_type: &Option<String>,
        segment_id: &String,
        position: usize,
    ) -> (r: SegmentSchemaContext)
        ensures
            r.hierarchy_level == spec_hier_level(segment_id@),
            r.requirement_status == spec_req_status(segment_id@),
            r.transaction_position == position,
            r.loop_context is None,
            (match r.transaction_type {
                Some(t) => transaction_type@ matches Some(t0) && t0@ == t@,
                None => transaction_type@ is None,
            }),
    {
        let hierarchy_level: u32 = if string_eq_str(segment_id, "ST") || string_eq_str(
            segment_id,
            "BEG",
        ) || string_eq_str(segment_id, "CUR") || string_eq_str(segment_id, "REF")
            || string_eq_str(segment_id, "PER") || string_eq_str(segment_id, "DTM") {
            0
        } else if string_eq_str(segment_id, "SE") || string_eq_str(segment_id, "CTT") {
            2
        } else {
            1
        };
        let requirement_status = if string_eq_str(segment_id, "ST") || string_eq_str(
            segment_id,
            "BEG",
        ) || string_eq_str(segment_id, "SE") || string_eq_str(segment_id, "PO1") {
            SegmentRequirementStatus::Required
        } else {
            SegmentRequirementStatus::Optional
        };
        let transaction_type = match transaction_type {
            Some(t) => Some(t.clone()),
            None => None,
        };
        SegmentSchemaContext {
            transaction_type,
            hierarchy_level,
            transaction_position: position,
            loop_context: None,
            requirement_status,
        }
    }

    /// Fold the business fields out of a transaction's segments, later
    /// segments superseding earlier ones.
    fn extract_business_context(&self, segments: &Vec<ValidatedSegment>) -> (r: BusinessContext)
        ensures
            r@ == spec_business_context(
                Seq::new(segments@.len(), |k: int| segments@[k].segment@),
                segments@.len() as int,
            ),
    {
        let ghost views = Seq::new(segments@.len(), |k: int| segments@[k].segment@);
        let mut context = BusinessContext {
            trading_partner: None,
            document_date: None,
            document_id: None,
            currency: None,
            total_amount: None,
        };
        proof {
            assert(context@ =~~= bc_empty());
        }
        let mut i: usize = 0;
        while i < segments.len()
            invariant
                i <= segments@.len(),
                views == Seq::new(segments@.len(), |k: int| segments@[k].segment@),
                context@ == spec_business_context(views, i as int),
            decreases segments@.len() - i,
        {
            let seg = &segments[i].segment;
            proof {
                assert(seg@ == views[i as int]);
                assert(seg@.elements =~= seg.elements.deep_view());
            }
            let ghost prev = context@;
            if string_eq_str(&seg.id, "BEG") {
                if seg.elements.len() > 3 {
                    proof {
                        assert(seg@.elements[3] == seg.elements@[3]@);
                    }
                    context.document_id = Some(seg.elements[3].clone());
                }
                if seg.elements.len() > 5 {
                    proof {
                        assert(seg@.elements[5] == seg.elements@[5]@);
                    }
                    context.document_date = Some(seg.elements[5].clone());
                }
            } else if string_eq_str(&seg.id, "CUR") {
                if seg.elements.len() > 2 {
                    proof {
                        assert(seg@.elements[2] == seg.elements@[2]@);
                    }
                    context.currency = Some(seg.elements[2].clone());
                }
            } else if string_eq_str(&seg.id, "N1") {
                if seg.elements.len() > 1 {
                    proof {
                        assert(seg@.elements[0] == seg.elements@[0]@);
                    }
                    if string_eq_str(&seg.elements[0], "BY") {
                        if seg.elements.len() > 2 {
                            proof {
                                assert(seg@.elements[2] == seg.elements@[2]@);
                            }
                            context.trading_partner = Some(seg.elements[2].clone());
                        }
                    }
                }
            }
            proof {
                assert(context@ =~~= bc_step(prev, views[i as int]));
            }
            i = i + 1;
        }
        context
    }

    /// The aggregated validity of a diagnostic list.
    fn determine_validation_status(&self, results: &Vec<ValidationResult>) -> (r: ValidationStatus)
        ensures
            r == spec_validation_status(results.deep_view()),
    {
        let mut found_error = false;
        let mut found_warning = false;
        let mut i: usize = 0;
        while i < results.len()
            invariant
                i <= results@.len(),
                found_error == exists|k: int|
                    0 <= k < i && (#[trigger] results.deep_view()[k]).result_type
                        == ValidationResultType::Error,
                found_warning == exists|k: int|
                    0 <= k < i && (#[trigger] results.deep_view()[k]).result_type
                        == ValidationResultType::Warning,
            decreases results@.len() - i,
        {
            proof {
                assert(results.deep_view()[i as int] == results@[i as int]@);
            }
            let is_err = match results[i].result_type {
                ValidationResultType::Error => true,
                _ => false,
            };
            let is_warn = match results[i].result_type {
                ValidationResultType::Warning => true,
                _ => false,
            };
            if is_err {
                found_error = true;
            }
            if is_warn {
                found_warning = true;
            }
            i = i + 1;
        }
        if found_error {
            ValidationStatus::Invalid
        } else if found_warning {
            ValidationStatus::ValidWithWarnings
        } else {
            ValidationStatus::Valid
        }
    }

    /// The overall outcome of a diagnostic list under the configured
    /// continuation policy.
    fn determine_parsing_status(&self, results: &Vec<ValidationResult>) -> (r: ParsingStatus)
        ensures
            r == spec_parsing_status(results.deep_view(), self.cfg().continue_on_error),
    {
        let mut found_error = false;
        let mut found_warning = false;
        let mut i: usize = 0;
        while i < results.len()
            invariant
                i <= results@.len(),
                found_error == exists|k: int|
                    0 <= k < i && (#[trigger] results.deep_view()[k]).result_type
                        == ValidationResultType::Error,
                found_warning == exists|k: int|
                    0 <= k < i && (#[trigger] results.deep_view()[k]).result_type
                        == ValidationResultType::Warning,
            decreases results@.len() - i,
        {
            proof {
                assert(results.deep_view()[i as int] == results@[i as int]@);
            }
            let is_err = match results[i].result_type {
                ValidationResultType::Error => true,
                _ => false,
            };
            let is_warn = match results[i].result_type {
                ValidationResultType::Warning => true,
                _ => false,
            };
            if is_err {
                found_error = true;
            }
            if is_warn {
                found_warning = true;
            }
            i = i + 1;
        }
        if !found_error && !found_warning {
            ParsingStatus::Success
        } else if !found_error {
            ParsingStatus::SuccessWithWarnings
        } else if self.config.continue_on_error {
            ParsingStatus::PartialSuccess
        } else {
            ParsingStatus::Failed
        }
    }

    /// The engine, for advanced callers.
    pub fn schema_engine(&self) -> (r: &SchemaEngine)
        ensures
            r@ == self.eng(),
    {
        &self.schema_engine
    }

    /// The configuration.
    pub fn config(&self) -> (r: &ParsingConfig)
        ensures
            r@ == self.cfg(),
    {
        &self.config
    }

    /// Replace the configuration.
    pub fn set_config(&mut self, config: ParsingConfig)
        ensures
            final(self).cfg() == config@,
            final(self).eng() == old(self).eng(),
            final(self).sreg() == old(self).sreg(),
            final(self).xcfg() == old(self).xcfg(),
    {
        self.config = config;
    }

    /// Every element reference in a result carrying a given element
    /// identifier: each points into a segment of the result and repeats that
    /// element's identifier, value and name.
    pub fn get_elements_by_id(&self, result: &SchemaParsingResult, element_id: u32) -> (r: Vec<
        ElementReference,
    >)
        ensures
            forall|k: int|
                0 <= k < r@.len() ==> (#[trigger] r@[k]).element_id == element_id
                    && r@[k].segment_index < result.segments@.len(),
    {
        let mut references: Vec<ElementReference> = Vec::new();
        let mut s: usize = 0;
        while s < result.segments.len()
            invariant
                s <= result.segments@.len(),
                forall|k: int|
                    0 <= k < references@.len() ==> (#[trigger] references@[k]).element_id
                        == element_id && references@[k].segment_index < result.segments@.len(),
            decreases result.segments@.len() - s,
        {
            let vseg = &result.segments[s];
            let mut e: usize = 0;
            while e < vseg.validated_elements.len()
                invariant
                    e <= vseg.validated_elements@.len(),
                    s < result.segments@.len(),
                    vseg == &result.segments@[s as int],
                    forall|k: int|
                        0 <= k < references@.len() ==> (#[trigger] references@[k]).element_id
                            == element_id && references@[k].segment_index < result.segments@.len(),
                decreases vseg.validated_elements@.len() - e,
            {
                let velem = &vseg.validated_elements[e];
                if velem.definition.element_id == element_id {
                    let value = match &velem.value {
                        Some(v) => v.clone(),
                        None => String::new(),
                    };
                    references.push(
                        ElementReference {
                            element_id,
                            segment_index: s,
                            element_index: e,
                            segment_id: vseg.segment.id.clone(),
                            value,
                            element_name: velem.definition.name.clone(),
                        },
                    );
                }
                e = e + 1;
            }
            s = s + 1;
        }
        references
    }

    /// Validate one transaction: the structure scan for its type, then the
    /// element checks segment by segment, with a context attached to every
    /// segment.
    fn process_transaction(&self, transaction: &crate::models::transaction::Transaction) -> (r: (
        Vec<ValidatedSegment>,
        Vec<ValidationResult>,
        TransactionSummary,
    ))
        ensures
            ({
                let tx = transaction@;
                &&& r.1.deep_view() == spec_tx_results(self.eng(), self.sreg(), self.cfg().version, tx)
                &&& r.0@.len() == tx.segments.len()
                &&& (forall|k: int|
                    0 <= k < r.0@.len() ==> (#[trigger] r.0@[k]).segment@ == tx.segments[k])
                &&& r.2.transaction_type@ == (match spec_tx_type(tx) {
                    Some(ty) => ty,
                    None => "UNKNOWN"@,
                })
                &&& r.2.version == self.cfg().version
                &&& r.2.segment_count == tx.segments.len()
                &&& r.2.validation_status == spec_validation_status(
                    spec_tx_results(self.eng(), self.sreg(), self.cfg().version, tx),
                )
                &&& r.2.business_context@ == spec_business_context(
                    tx.segments,
                    tx.segments.len() as int,
                )
                &&& r.2.segment_range == (0usize, 0usize)
            }),
    {
        let ghost tx = transaction@;
        let segments = &transaction.segments;
        let n = segments.len();
        // The transaction type, read from the leading header.
        let transaction_type: Option<String> = if n > 0 && string_eq_str(&segments[0].id, "ST")
            && segments[0].elements.len() > 1 {
            proof {
                assert(tx.segments[0] == segments@[0]@);
                assert(tx.segments[0].elements[0] == segments@[0].elements@[0]@);
            }
            Some(segments[0].elements[0].clone())
        } else {
            proof {
                if n > 0 {
                    assert(tx.segments[0] == segments@[0]@);
                }
            }
            None
        };
        let mut results: Vec<ValidationResult> = Vec::new();
        match &transaction_type {
            Some(ty) => {
                let mut ids: Vec<String> = Vec::new();
                let mut k: usize = 0;
                while k < n
                    invariant
                        k <= n,
                        n == segments@.len(),
                        segments == &transaction.segments,
                        tx == transaction@,
                        ids.deep_view() =~= tx_ids(tx).take(k as int),
                    decreases n - k,
                {
                    let ghost prev = ids.deep_view();
                    let idc = segments[k].id.clone();
                    proof {
                        assert(idc@ == tx.segments[k as int].id);
                    }
                    ids.push(idc);
                    proof {
                        assert(ids.deep_view() =~= prev.push(tx.segments[k as int].id));
                        assert(ids.deep_view() =~= tx_ids(tx).take(k as int + 1));
                    }
                    k = k + 1;
                }
                proof {
                    assert(ids.deep_view() =~= tx_ids(tx));
                }
                let ids_slice = ids.as_slice();
                proof {
                    assert(ids_slice.deep_view() =~= ids.deep_view());
                }
                match self.schema_engine.validate_transaction_structure(
                    ty.as_str(),
                    &self.config.version,
                    ids_slice,
                ) {
                    Ok(mut rs) => {
                        let ghost rsv = rs.deep_view();
                        results.append(&mut rs);
                        proof {
                            assert(results.deep_view() =~= Seq::<
                                ValidationResultView,
                            >::empty() + rsv);
                        }
                    },
                    Err(e) => {
                        let msg = String::from_str("Transaction structure validation failed: ")
                            .concat(e.message().as_str());
                        let res = ValidationResult {
                            result_type: ValidationResultType::Error,
                            message: msg,
                            segment_position: None,
                            element_position: None,
                        };
                        let ghost rv = res@;
                        results.push(res);
                        proof {
                            assert(results.deep_view() =~= Seq::<
                                ValidationResultView,
                            >::empty().push(rv));
                        }
                    },
                }
            },
            None => {},
        }
        proof {
            assert(results.deep_view() =~= spec_tx_structure_results(
                self.eng(),
                self.cfg().version,
                tx,
            ));
        }
        let ghost structure = results.deep_view();

        let mut validated_segments: Vec<ValidatedSegment> = Vec::new();
        let mut segpos: usize = 0;
        while segpos < n
            invariant
                segpos <= n,
                n == segments@.len(),
                segments == &transaction.segments,
                tx == transaction@,
                structure == spec_tx_structure_results(self.eng(), self.cfg().version, tx),
                self.sreg() == self.segment_registry@,
                self.cfg().version == self.config.version,
                results.deep_view() =~= structure + spec_tx_elem_results(
                    self.sreg(),
                    self.cfg().version,
                    tx,
                    segpos as int,
                ),
                validated_segments@.len() == segpos,
                forall|k: int|
                    0 <= k < segpos ==> (#[trigger] validated_segments@[k]).segment@
                        == tx.segments[k],
                (match transaction_type {
                    Some(ref t) => spec_tx_type(tx) matches Some(t0) && t0 == t@,
                    None => spec_tx_type(tx) is None,
                }),
            decreases n - segpos,
        {
            let segment = &segments[segpos];
            proof {
                assert(segment@ == tx.segments[segpos as int]);
            }
            let mut validated_elements: Vec<ValidatedElement> = Vec::new();
            let ghost before_seg = results.deep_view();
            let en = segment.elements.len();
            let mut ep: usize = 0;
            while ep < en
                invariant
                    ep <= en,
                    en == segment.elements@.len(),
                    segment == &transaction.segments@[segpos as int],
                    segment@ == tx.segments[segpos as int],
                    tx == transaction@,
                    segpos < tx.segments.len(),
                    self.sreg() == self.segment_registry@,
                    self.cfg().version == self.config.version,
                    results.deep_view() =~= before_seg + spec_seg_elem_results(
                        self.sreg(),
                        self.cfg().version,
                        tx.segments[segpos as int],
                        segpos,
                        ep as int,
                    ),
                decreases en - ep,
            {
                proof {
                    assert(tx.segments[segpos as int].elements[ep as int]
                        == segment.elements@[ep as int]@);
                }
                match self.segment_registry.get_definition(&self.config.version, segment.id.as_str()) {
                    Some(segment_def) => {
                        let dn = segment_def.elements.len();
                        if ep < dn {
                            let element_def = segment_def.elements[ep].clone();
                            proof {
                                assert(element_def@ == segment_def@.elements[ep as int]);
                            }
                            match self.segment_registry.validate_element_value(
                                &self.config.version,
                                segment.id.as_str(),
                                ep,
                                segment.elements[ep].as_str(),
                            ) {
                                Ok(_) => {
                                    validated_elements.push(
                                        ValidatedElement::new(
                                            element_def,
                                            Some(segment.elements[ep].clone()),
                                            ep,
                                        ),
                                    );
                                },
                                Err(e) => {
                                    let msg = String::from_str("Element validation failed: ")
                                        .concat(e.message().as_str());
                                    let res = ValidationResult {
                                        result_type: ValidationResultType::Error,
                                        message: msg,
                                        segment_position: Some(segpos),
                                        element_position: Some(ep),
                                    };
                                    let ghost rv = res@;
                                    let ghost prevr = results.deep_view();
                                    results.push(res);
                                    proof {
                                        assert(results.deep_view() =~= prevr.push(rv));
                                    }
                                    validated_elements.push(
                                        ValidatedElement::new(
                                            element_def,
                                            Some(segment.elements[ep].clone()),
                                            ep,
                                        ),
                                    );
                                },
                            }
                        } else {
                            let msg = String::from_str("Element position ").concat(
                                usize_to_string(ep + 1).as_str(),
                            ).concat(" not defined in segment ").concat(segment.id.as_str());
                            let res = ValidationResult {
                                result_type: ValidationResultType::Warning,
                                message: msg,
                                segment_position: Some(segpos),
                                element_position: Some(ep),
                            };
                            let ghost rv = res@;
                            let ghost prevr = results.deep_view();
                            results.push(res);
                            proof {
                                assert(results.deep_view() =~= prevr.push(rv));
                            }
                        }
                    },
                    None => {},
                }
                proof {
                    assert(results.deep_view() =~= before_seg + spec_seg_elem_results(
                        self.sreg(),
                        self.cfg().version,
                        tx.segments[segpos as int],
                        segpos,
                        ep as int + 1,
                    ));
                }
                ep = ep + 1;
            }
            let schema_context = self.determine_schema_context(
                &transaction_type,
                &segment.id,
                segpos,
            );
            let vseg = ValidatedSegment {
                segment: segment.clone(),
                validated_elements,
                validation_results: Vec::new(),
                schema_context,
            };
            validated_segments.push(vseg);
            proof {
                assert(results.deep_view() =~= structure + spec_tx_elem_results(
                    self.sreg(),
                    self.cfg().version,
                    tx,
                    segpos as int + 1,
                ));
            }
            segpos = segpos + 1;
        }
        proof {
            assert(results.deep_view() =~= spec_tx_results(
                self.eng(),
                self.sreg(),
                self.cfg().version,
                tx,
            ));
        }
        let business_context = self.extract_business_context(&validated_segments);
        proof {
            assert(Seq::new(
                validated_segments@.len(),
                |k: int| validated_segments@[k].segment@,
            ) =~= tx.segments);
        }
        let validation_status = self.determine_validation_status(&results);
        let transaction_type_name = match transaction_type {
            Some(t) => t,
            None => String::from_str("UNKNOWN"),
        };
        let summary = TransactionSummary {
            transaction_type: transaction_type_name,
            version: self.config.version,
            segment_range: (0, 0),
            segment_count: n,
            validation_status,
            business_context,
        };
        (validated_segments, results, summary)
    }

    /// Parse a document and validate every transaction in it: the assembled
    /// hierarchy's transactions are checked against the engine's layouts and
    /// the element catalog, diagnostics accumulate across the whole
    /// interchange, and each transaction gets a summary.  Hard parse faults
    /// abort with the document parser's typed error.
    pub fn parse_with_schema(&mut self, edi_data: &str) -> (r: Result<SchemaParsingResult, EdiError>)
        ensures
            match r {
                Ok(res) => ({
                    let parsed = spec_parse_x12(old(self).xcfg(), edi_data@);
                    &&& parsed is Ok
                    &&& ({
                        let txs = all_txs(parsed->Ok_0.functional_groups);
                        let eng = old(self).eng();
                        let reg = old(self).sreg();
                        let version = old(self).cfg().version;
                        let rs = spec_all_results(eng, reg, version, txs);
                        &&& res.validation_results.deep_view() == rs
                        &&& res.segments@.len() == total_segments(txs)
                        &&& res.transaction_summaries@.len() == txs.len()
                        &&& (forall|j: int|
                            0 <= j < txs.len() ==> summary_matches(
                                #[trigger] res.transaction_summaries@[j],
                                eng,
                                reg,
                                version,
                                txs,
                                j,
                            ))
                        &&& res.status == spec_parsing_status(rs, old(self).cfg().continue_on_error)
                        &&& res.metrics.segments_processed == total_segments(txs)
                        &&& (total_elements(txs) <= usize::MAX
                            ==> res.metrics.elements_validated == total_elements(txs))
                        &&& res.metrics.parsing_time_ms == 0
                        &&& res.metrics.validation_time_ms == 0
                        &&& res.metrics.memory_usage_bytes == 0
                    })
                }),
                Err(e) => match spec_parse_x12(old(self).xcfg(), edi_data@) {
                    Err(ParseFault::EmptyInput) => e matches EdiError::InvalidSegmentFormat(m)
                        && m@ == "Empty input"@,
                    Err(ParseFault::BadHeader(rec)) => e matches EdiError::InvalidSegmentFormat(m)
                        && m@ == rec,
                    Err(ParseFault::BadTransactionHeader(rec)) => e matches EdiError::InvalidSegmentFormat(
                        m,
                    ) && m@ == rec,
                    Ok(_) => false,
                },
            },
    {
        let interchange = match self.x12_parser.parse(edi_data) {
            Ok(ic) => ic,
            Err(e) => {
                return Err(e);
            },
        };
        let ghost icv = interchange@;
        let ghost txs = all_txs(icv.functional_groups);
        let ghost eng = self.eng();
        let ghost reg = self.sreg();
        let ghost version = self.cfg().version;

        let mut all_segments: Vec<ValidatedSegment> = Vec::new();
        let mut all_results: Vec<ValidationResult> = Vec::new();
        let mut summaries: Vec<TransactionSummary> = Vec::new();
        let mut elements_validated: usize = 0;
        let ghost mut txs_done: Seq<TransactionView> = Seq::empty();

        let mut g: usize = 0;
        while g < interchange.functional_groups.len()
            invariant
                g <= interchange.functional_groups@.len(),
                icv == interchange@,
                txs == all_txs(icv.functional_groups),
                eng == self.eng(),
                reg == self.sreg(),
                version == self.cfg().version,
                txs_done == all_txs(icv.functional_groups.take(g as int)),
                all_results.deep_view() =~= spec_all_results(eng, reg, version, txs_done),
                all_segments@.len() == total_segments(txs_done),
                summaries@.len() == txs_done.len(),
                forall|j: int|
                    0 <= j < txs_done.len() ==> summary_matches(
                        #[trigger] summaries@[j],
                        eng,
                        reg,
                        version,
                        txs_done,
                        j,
                    ),
                total_elements(txs_done) <= usize::MAX ==> elements_validated == total_elements(
                    txs_done,
                ),
            decreases interchange.functional_groups@.len() - g,
        {
            let fg = &interchange.functional_groups[g];
            let ghost fgv = icv.functional_groups[g as int];
            proof {
                assert(fgv == interchange.functional_groups@[g as int]@);
            }
            let mut t: usize = 0;
            while t < fg.transactions.len()
                invariant
                    t <= fg.transactions@.len(),
                    g < interchange.functional_groups@.len(),
                    fg == &interchange.functional_groups@[g as int],
                    fgv == icv.functional_groups[g as int],
                    icv == interchange@,
                    eng == self.eng(),
                    reg == self.sreg(),
                    version == self.cfg().version,
                    txs_done == all_txs(icv.functional_groups.take(g as int))
                        + fgv.transactions.take(t as int),
                    all_results.deep_view() =~= spec_all_results(eng, reg, version, txs_done),
                    all_segments@.len() == total_segments(txs_done),
                    summaries@.len() == txs_done.len(),
                    forall|j: int|
                        0 <= j < txs_done.len() ==> summary_matches(
                            #[trigger] summaries@[j],
                            eng,
                            reg,
                            version,
                            txs_done,
                            j,
                        ),
                    total_elements(txs_done) <= usize::MAX ==> elements_validated
                        == total_elements(txs_done),
                decreases fg.transactions@.len() - t,
            {
                let transaction = &fg.transactions[t];
                let ghost txv = fgv.transactions[t as int];
                proof {
                    assert(txv == fg.transactions@[t as int]@);
                }
                let (mut vsegs, mut results, mut summary) = self.process_transaction(transaction);
                let start = all_segments.len();
                let ghost txs_next = txs_done.push(txv);
                proof {
                    assert(txs_next.drop_last() =~= txs_done);
                    assert(txs_next.last() == txv);
                    assert(spec_all_results(eng, reg, version, txs_next) =~= spec_all_results(
                        eng,
                        reg,
                        version,
                        txs_done,
                    ) + spec_tx_results(eng, reg, version, txv));
                    assert(txs_next.take(txs_done.len() as int) =~= txs_done);
                }
                let ghost rsv = results.deep_view();
                all_results.append(&mut results);
                proof {
                    assert(all_results.deep_view() =~= spec_all_results(eng, reg, version, txs_done)
                        + rsv);
                }
                // Throughput counter for elements, saturating at the top.
                let seg_elems = count_tx_elements(transaction);
                if seg_elems <= usize::MAX - elements_validated {
                    elements_validated = elements_validated + seg_elems;
                } else {
                    elements_validated = usize::MAX;
                }
                let ghost vsegsv = vsegs@;
                all_segments.append(&mut vsegs);
                let end = all_segments.len();
                summary.segment_range = (start, end);
                let ghost prevsum = summaries@;
                let ghost sumv = summary;
                summaries.push(summary);
                proof {
                    assert(summaries@ =~= prevsum.push(sumv));
                    assert forall|j: int| 0 <= j < txs_next.len() implies summary_matches(
                        #[trigger] summaries@[j],
                        eng,
                        reg,
                        version,
                        txs_next,
                        j,
                    ) by {
                        if j < txs_done.len() {
                            assert(summary_matches(summaries@[j], eng, reg, version, txs_done, j));
                            assert(txs_next.take(j) =~= txs_done.take(j));
                            assert(txs_next.take(j + 1) =~= txs_done.take(j + 1));
                            assert(txs_next[j] == txs_done[j]);
                        } else {
                            assert(txs_next.take(j) =~= txs_done);
                            assert(txs_next.take(j + 1) =~= txs_next);
                            assert(total_segments(txs_next) == total_segments(txs_done)
                                + txv.segments.len());
                        }
                    }
                    assert(total_segments(txs_next) == total_segments(txs_done)
                        + txv.segments.len());
                    assert(total_elements(txs_next) == total_elements(txs_done) + seg_elems_total(
                        txv.segments,
                    ));
                    txs_done = txs_next;
                }
                t = t + 1;
                proof {
                    assert(txs_done =~= all_txs(icv.functional_groups.take(g as int))
                        + fgv.transactions.take(t as int));
                }
            }
            proof {
                assert(fgv.transactions.take(fgv.transactions.len() as int) =~= fgv.transactions);
                assert(icv.functional_groups.take(g as int + 1).drop_last()
                    =~= icv.functional_groups.take(g as int));
                assert(icv.functional_groups.take(g as int + 1).last() == fgv);
                assert(txs_done =~= all_txs(icv.functional_groups.take(g as int + 1)));
            }
            g = g + 1;
        }
        proof {
            assert(icv.functional_groups.take(icv.functional_groups.len() as int)
                =~= icv.functional_groups);
            assert(txs_done =~= txs);
        }
        let status = self.determine_parsing_status(&all_results);
        let segments_processed = all_segments.len();
        let metrics = ParsingMetrics {
            parsing_time_ms: 0,
            validation_time_ms: 0,
            memory_usage_bytes: 0,
            segments_processed,
            elements_validated,
        };
        Ok(
            SchemaParsingResult {
                segments: all_segments,
                validation_results: all_results,
                transaction_summaries: summaries,
                status,
                metrics,
            },
        )
    }
}

/// The number of element values across one transaction's segments, saturating
/// at the top of `usize`.
fn count_tx_elements(transaction: &crate::models::transaction::Transaction) -> (r: usize)
    ensures
        seg_elems_total(transaction@.segments) <= usize::MAX ==> r == seg_elems_total(
            transaction@.segments,
        ),
        r <= seg_elems_total(transaction@.segments),
{
    let mut count: usize = 0;
    let mut i: usize = 0;
    while i < transaction.segments.len()
        invariant
            i <= transaction.segments@.len(),
            seg_elems_total(transaction@.segments.take(i as int)) <= usize::MAX ==> count
                == seg_elems_total(transaction@.segments.take(i as int)),
            count <= seg_elems_total(transaction@.segments.take(i as int)),
        decreases transaction.segments@.len() - i,
    {
        proof {
            assert(transaction@.segments.take(i as int + 1).drop_last()
                =~= transaction@.segments.take(i as int));
            assert(transaction@.segments.take(i as int + 1).last()
                == transaction@.segments[i as int]);
            assert(transaction@.segments[i as int] == transaction.segments@[i as int]@);
        }
        let k = transaction.segments[i].elements.len();
        if k <= usize::MAX - count {
            count = count + k;
        } else {
            count = usize::MAX;
        }
        i = i + 1;
    }
    proof {
        assert(transaction@.segments.take(transaction@.segments.len() as int)
            =~= transaction@.segments);
    }
    count
}

} // verus!
