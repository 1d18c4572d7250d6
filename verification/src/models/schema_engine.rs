use crate::error::EdiError;
use crate::models::segment_definition::{ElementDataType, SegmentDefinition, X12Version};
use crate::utils::{spec_dec, str_eq, string_eq_str, string_vec_contains, u32_to_string,
    usize_to_string};
use std::collections::HashMap;
use vstd::prelude::*;

verus! {

// ---------------------------------------------------------------------------
// Catalog data
// ---------------------------------------------------------------------------

/// Version-aware catalog of transaction set layouts and element metadata, and
/// the engine that checks a transaction's segment sequence against it.
#[derive(Debug)]
pub struct SchemaEngine {
    transaction_sets: Vec<(String, X12Version, TransactionSetSchema)>,
    element_dictionary: Vec<(u32, ElementMasterDefinition)>,
    segment_registry: Vec<(X12Version, String, SegmentDefinition)>,
}

/// Master element metadata, shared across versions.
#[derive(Debug)]
pub struct ElementMasterDefinition {
    pub element_id: u32,
    pub name: String,
    pub description: String,
    pub data_type: ElementDataType,
    pub min_length: Option<u32>,
    pub max_length: Option<u32>,
    pub version_implementations: HashMap<X12Version, ElementVersionInfo>,
}

/// Version-specific element details.
#[derive(Debug)]
pub struct ElementVersionInfo {
    pub valid_codes: Option<Vec<String>>,
    pub notes: Option<String>,
    pub usage_rules: Vec<String>,
}

/// One transaction set's layout for one version.
#[derive(Debug)]
pub struct TransactionSetSchema {
    pub transaction_type: String,
    pub version: X12Version,
    pub name: String,
    pub description: String,
    pub segments: Vec<SegmentSchema>,
    pub trading_partner_agreements: Vec<TradingPartnerAgreement>,
}

/// One segment's place in a transaction layout.
#[derive(Debug)]
pub struct SegmentSchema {
    pub segment_id: String,
    pub name: String,
    pub requirement: SegmentRequirement,
    pub max_use: Option<u32>,
    /// 0 = header, 1 = detail, 2 = summary.
    pub hierarchy_level: u32,
    pub dependencies: Vec<SegmentDependency>,
    pub context_rules: Vec<ContextRule>,
}

/// A trading partner's registered customizations.
#[derive(Debug)]
pub struct TradingPartnerAgreement {
    pub partner_id: String,
    pub agreement_name: String,
    pub customizations: Vec<SchemaCustomization>,
}

/// One partner-specific override, naming a segment and optionally an element
/// position.
#[derive(Debug)]
pub struct SchemaCustomization {
    pub segment_id: String,
    pub element_position: Option<usize>,
    pub customization_type: CustomizationType,
    pub description: String,
}

#[derive(Debug)]
pub enum CustomizationType {
    /// Make an optional target mandatory.
    MakeMandatory,
    /// Make a mandatory target optional.
    MakeOptional,
    /// Accept additional codes.
    ExtendValidCodes(Vec<String>),
    /// Keep only the given codes.
    RestrictValidCodes(Vec<String>),
    /// Override length bounds; `None` keeps the existing bound.
    ChangeLengthConstraints { min: Option<u32>, max: Option<u32> },
}

#[derive(Debug)]
pub enum SegmentRequirement {
    Mandatory,
    Optional,
    Conditional(String),
}

#[derive(Debug)]
pub struct SegmentDependency {
    pub depends_on: String,
    pub dependency_type: DependencyType,
    pub condition: Option<String>,
}

#[derive(Debug, Clone, Copy, PartialEq, Eq, Structural)]
pub enum DependencyType {
    /// Must appear after the referenced segment.
    MustFollow,
    /// Must appear before the referenced segment.
    MustPrecede,
    /// Cannot appear together with the referenced segment.
    MutuallyExclusive,
    /// Required when the referenced segment is present; loop-context
    /// sensitive, so deferred to loop reconstruction.
    RequiredIf,
}

#[derive(Debug)]
pub struct ContextRule {
    pub rule_id: String,
    pub description: String,
    pub condition: String,
    pub action: ValidationAction,
}

#[derive(Debug)]
pub enum ValidationAction {
    Error(String),
    Warning(String),
    Info(String),
    Transform(String),
}

/// One diagnostic of the engine.
#[derive(Debug)]
pub struct ValidationResult {
    pub result_type: ValidationResultType,
    pub message: String,
    pub segment_position: Option<usize>,
    pub element_position: Option<usize>,
}

#[derive(Debug, Clone, PartialEq, Eq, Structural)]
pub enum ValidationResultType {
    Error,
    Warning,
    Info,
}

// ---------------------------------------------------------------------------
// Views
// ---------------------------------------------------------------------------

#[verifier::ext_equal]
pub enum SegmentRequirementView {
    Mandatory,
    Optional,
    Conditional(Seq<char>),
}

impl View for SegmentRequirement {
    type V = SegmentRequirementView;

    open spec fn view(&self) -> SegmentRequirementView {
        match self {
            SegmentRequirement::Mandatory => SegmentRequirementView::Mandatory,
            SegmentRequirement::Optional => SegmentRequirementView::Optional,
            SegmentRequirement::Conditional(s) => SegmentRequirementView::Conditional(s@),
        }
    }
}

#[verifier::ext_equal]
pub struct SegmentDependencyView {
    pub depends_on: Seq<char>,
    pub dependency_type: DependencyType,
    pub condition: Option<Seq<char>>,
}

impl View for SegmentDependency {
    type V = SegmentDependencyView;

    open spec fn view(&self) -> SegmentDependencyView {
        SegmentDependencyView {
            depends_on: self.depends_on@,
            dependency_type: self.dependency_type,
            condition: match self.condition {
                Some(ref s) => Some(s@),
                None => None,
            },
        }
    }
}

impl DeepView for SegmentDependency {
    type V = SegmentDependencyView;

    open spec fn deep_view(&self) -> SegmentDependencyView {
        self.view()
    }
}

#[verifier::ext_equal]
pub enum ValidationActionView {
    Error(Seq<char>),
    Warning(Seq<char>),
    Info(Seq<char>),
    Transform(Seq<char>),
}

impl View for ValidationAction {
    type V = ValidationActionView;

    open spec fn view(&self) -> ValidationActionView {
        match self {
            ValidationAction::Error(s) => ValidationActionView::Error(s@),
            ValidationAction::Warning(s) => ValidationActionView::Warning(s@),
            ValidationAction::Info(s) => ValidationActionView::Info(s@),
            ValidationAction::Transform(s) => ValidationActionView::Transform(s@),
        }
    }
}

#[verifier::ext_equal]
pub struct ContextRuleView {
    pub rule_id: Seq<char>,
    pub description: Seq<char>,
    pub condition: Seq<char>,
    pub action: ValidationActionView,
}

impl View for ContextRule {
    type V = ContextRuleView;

    open spec fn view(&self) -> ContextRuleView {
        ContextRuleView {
            rule_id: self.rule_id@,
            description: self.description@,
            condition: self.condition@,
            action: self.action@,
        }
    }
}

impl DeepView for ContextRule {
    type V = ContextRuleView;

    open spec fn deep_view(&self) -> ContextRuleView {
        self.view()
    }
}

#[verifier::ext_equal]
pub struct SegmentSchemaView {
    pub segment_id: Seq<char>,
    pub name: Seq<char>,
    pub requirement: SegmentRequirementView,
    pub max_use: Option<u32>,
    pub hierarchy_level: u32,
    pub dependencies: Seq<SegmentDependencyView>,
    pub context_rules: Seq<ContextRuleView>,
}

impl View for SegmentSchema {
    type V = SegmentSchemaView;

    open spec fn view(&self) -> SegmentSchemaView {
        SegmentSchemaView {
            segment_id: self.segment_id@,
            name: self.name@,
            requirement: self.requirement@,
            max_use: self.max_use,
            hierarchy_level: self.hierarchy_level,
            dependencies: self.dependencies.deep_view(),
            context_rules: self.context_rules.deep_view(),
        }
    }
}

impl DeepView for SegmentSchema {
    type V = SegmentSchemaView;

    open spec fn deep_view(&self) -> SegmentSchemaView {
        self.view()
    }
}

#[verifier::ext_equal]
pub struct SchemaCustomizationView {
    pub segment_id: Seq<char>,
    pub element_position: Option<usize>,
    pub customization_type: CustomizationTypeView,
    pub description: Seq<char>,
}

#[verifier::ext_equal]
pub enum CustomizationTypeView {
    MakeMandatory,
    MakeOptional,
    ExtendValidCodes(Seq<Seq<char>>),
    RestrictValidCodes(Seq<Seq<char>>),
    ChangeLengthConstraints { min: Option<u32>, max: Option<u32> },
}

impl View for CustomizationType {
    type V = CustomizationTypeView;

    open spec fn view(&self) -> CustomizationTypeView {
        match self {
            CustomizationType::MakeMandatory => CustomizationTypeView::MakeMandatory,
            CustomizationType::MakeOptional => CustomizationTypeView::MakeOptional,
            CustomizationType::ExtendValidCodes(v) => CustomizationTypeView::ExtendValidCodes(
                v.deep_view(),
            ),
            CustomizationType::RestrictValidCodes(v) => CustomizationTypeView::RestrictValidCodes(
                v.deep_view(),
            ),
            CustomizationType::ChangeLengthConstraints { min, max } => CustomizationTypeView::ChangeLengthConstraints {
                min: *min,
                max: *max,
            },
        }
    }
}

impl View for SchemaCustomization {
    type V = SchemaCustomizationView;

    open spec fn view(&self) -> SchemaCustomizationView {
        SchemaCustomizationView {
            segment_id: self.segment_id@,
            element_position: self.element_position,
            customization_type: self.customization_type@,
            description: self.description@,
        }
    }
}

impl DeepView for SchemaCustomization {
    type V = SchemaCustomizationView;

    open spec fn deep_view(&self) -> SchemaCustomizationView {
        self.view()
    }
}

#[verifier::ext_equal]
pub struct TradingPartnerAgreementView {
    pub partner_id: Seq<char>,
    pub agreement_name: Seq<char>,
    pub customizations: Seq<SchemaCustomizationView>,
}

impl View for TradingPartnerAgreement {
    type V = TradingPartnerAgreementView;

    open spec fn view(&self) -> TradingPartnerAgreementView {
        TradingPartnerAgreementView {
            partner_id: self.partner_id@,
            agreement_name: self.agreement_name@,
            customizations: self.customizations.deep_view(),
        }
    }
}

impl DeepView for TradingPartnerAgreement {
    type V = TradingPartnerAgreementView;

    open spec fn deep_view(&self) -> TradingPartnerAgreementView {
        self.view()
    }
}

#[verifier::ext_equal]
pub struct TransactionSetSchemaView {
    pub transaction_type: Seq<char>,
    pub version: X12Version,
    pub name: Seq<char>,
    pub description: Seq<char>,
    pub segments: Seq<SegmentSchemaView>,
    pub trading_partner_agreements: Seq<TradingPartnerAgreementView>,
}

impl View for TransactionSetSchema {
    type V = TransactionSetSchemaView;

    open spec fn view(&self) -> TransactionSetSchemaView {
        TransactionSetSchemaView {
            transaction_type: self.transaction_type@,
            version: self.version,
            name: self.name@,
            description: self.description@,
            segments: self.segments.deep_view(),
            trading_partner_agreements: self.trading_partner_agreements.deep_view(),
        }
    }
}

#[verifier::ext_equal]
pub struct ValidationResultView {
    pub result_type: ValidationResultType,
    pub message: Seq<char>,
    pub segment_position: Option<usize>,
    pub element_position: Option<usize>,
}

impl View for ValidationResult {
    type V = ValidationResultView;

    open spec fn view(&self) -> ValidationResultView {
        ValidationResultView {
            result_type: self.result_type,
            message: self.message@,
            segment_position: self.segment_position,
            element_position: self.element_position,
        }
    }
}

impl DeepView for ValidationResult {
    type V = ValidationResultView;

    open spec fn deep_view(&self) -> ValidationResultView {
        self.view()
    }
}

/// One engine entry: a transaction type and version keying a layout.
#[verifier::ext_equal]
pub struct TxSetEntryView {
    pub transaction_type: Seq<char>,
    pub version: X12Version,
    pub schema: TransactionSetSchemaView,
}

impl View for SchemaEngine {
    type V = Seq<TxSetEntryView>;

    closed spec fn view(&self) -> Seq<TxSetEntryView> {
        Seq::new(
            self.transaction_sets@.len(),
            |i: int|
                TxSetEntryView {
                    transaction_type: self.transaction_sets@[i].0@,
                    version: self.transaction_sets@[i].1,
                    schema: self.transaction_sets@[i].2@,
                },
        )
    }
}

/// The dictionary of an engine, as element identifier keys in order.
pub open spec fn spec_dictionary_ids(entries: Seq<(u32, ElementMasterDefinition)>) -> Seq<u32> {
    Seq::new(entries.len(), |i: int| entries[i].0)
}

/// The layout registered under a transaction type and version, the latest
/// registration winning.
pub open spec fn spec_schema_lookup(
    entries: Seq<TxSetEntryView>,
    transaction_type: Seq<char>,
    version: X12Version,
) -> Option<TransactionSetSchemaView>
    decreases entries.len(),
{
    if entries.len() == 0 {
        None
    } else if entries.last().transaction_type == transaction_type && entries.last().version
        == version {
        Some(entries.last().schema)
    } else {
        spec_schema_lookup(entries.drop_last(), transaction_type, version)
    }
}

// ---------------------------------------------------------------------------
// The structure scan, as one specification
// ---------------------------------------------------------------------------

/// The first layout entry for a segment identifier, or the layout length when
/// absent.
pub open spec fn find_schema_idx(schema: Seq<SegmentSchemaView>, id: Seq<char>) -> int
    decreases schema.len(),
{
    if schema.len() == 0 {
        0
    } else if schema[0].segment_id == id {
        0
    } else {
        1 + find_schema_idx(schema.drop_first(), id)
    }
}

pub proof fn lemma_find_schema_idx_bounds(schema: Seq<SegmentSchemaView>, id: Seq<char>)
    ensures
        0 <= find_schema_idx(schema, id) <= schema.len(),
        find_schema_idx(schema, id) < schema.len() ==> schema[find_schema_idx(schema, id)].segment_id
            == id,
        forall|k: int| 0 <= k < find_schema_idx(schema, id) ==> schema[k].segment_id != id,
    decreases schema.len(),
{
    if schema.len() > 0 && schema[0].segment_id != id {
        lemma_find_schema_idx_bounds(schema.drop_first(), id);
        assert forall|k: int| 0 <= k < find_schema_idx(schema, id) implies schema[k].segment_id
            != id by {
            if k > 0 {
                assert(schema.drop_first()[k - 1].segment_id != id);
            }
        }
    }
}

pub proof fn lemma_find_schema_idx_is(schema: Seq<SegmentSchemaView>, id: Seq<char>, i: int)
    requires
        0 <= i <= schema.len(),
        forall|k: int| 0 <= k < i ==> schema[k].segment_id != id,
        i < schema.len() ==> schema[i].segment_id == id,
    ensures
        find_schema_idx(schema, id) == i,
    decreases schema.len(),
{
    if schema.len() > 0 && schema[0].segment_id != id {
        assert(i > 0);
        lemma_find_schema_idx_is(schema.drop_first(), id, i - 1);
    }
}

/// Occurrences of an identifier in a list.
pub open spec fn count_matches(ids: Seq<Seq<char>>, id: Seq<char>) -> nat
    decreases ids.len(),
{
    if ids.len() == 0 {
        0
    } else {
        count_matches(ids.drop_last(), id) + (if ids.last() == id {
            1nat
        } else {
            0nat
        })
    }
}

/// The highest hierarchy level among the known segments before position `i`.
pub open spec fn hier_max(schema: Seq<SegmentSchemaView>, ids: Seq<Seq<char>>, i: int) -> u32
    decreases i,
{
    if i <= 0 {
        0
    } else {
        let m = hier_max(schema, ids, i - 1);
        let j = find_schema_idx(schema, ids[i - 1]);
        if j < schema.len() && schema[j].hierarchy_level > m {
            schema[j].hierarchy_level
        } else {
            m
        }
    }
}

pub open spec fn msg_max_use(id: Seq<char>, m: u32, pos: int) -> Seq<char> {
    "Segment "@ + id + " exceeds maximum usage of "@ + spec_dec(m as nat) + " at position "@
        + spec_dec((pos + 1) as nat)
}

pub open spec fn msg_hier(id: Seq<char>, pos: int) -> Seq<char> {
    "Segment "@ + id + " appears to move backwards in hierarchy at position "@ + spec_dec(
        (pos + 1) as nat,
    )
}

pub open spec fn msg_must_follow(id: Seq<char>, dep: Seq<char>) -> Seq<char> {
    "Segment "@ + id + " requires "@ + dep + " to appear before it"@
}

pub open spec fn msg_must_precede(id: Seq<char>, dep: Seq<char>) -> Seq<char> {
    "Segment "@ + id + " requires "@ + dep + " to appear after it"@
}

pub open spec fn msg_exclusive(id: Seq<char>, dep: Seq<char>) -> Seq<char> {
    "Segment "@ + id + " cannot appear together with "@ + dep
}

pub open spec fn msg_unknown(id: Seq<char>, pos: int) -> Seq<char> {
    "Unknown segment "@ + id + " at position "@ + spec_dec((pos + 1) as nat)
}

pub open spec fn msg_missing(id: Seq<char>) -> Seq<char> {
    "Missing mandatory segment "@ + id
}

pub open spec fn res_error(message: Seq<char>, pos: Option<usize>) -> ValidationResultView {
    ValidationResultView {
        result_type: ValidationResultType::Error,
        message,
        segment_position: pos,
        element_position: None,
    }
}

pub open spec fn res_warning(message: Seq<char>, pos: Option<usize>) -> ValidationResultView {
    ValidationResultView {
        result_type: ValidationResultType::Warning,
        message,
        segment_position: pos,
        element_position: None,
    }
}

/// Whether one dependency of the segment at position `i` is violated.
pub open spec fn dep_violated(ids: Seq<Seq<char>>, i: int, dep: SegmentDependencyView) -> bool {
    match dep.dependency_type {
        DependencyType::MustFollow => !ids.take(i).contains(dep.depends_on),
        DependencyType::MustPrecede => !ids.skip(i + 1).contains(dep.depends_on),
        DependencyType::MutuallyExclusive => exists|k: int|
            0 <= k < ids.len() && k != i && ids[k] == dep.depends_on,
        DependencyType::RequiredIf => false,
    }
}

pub open spec fn dep_message(id: Seq<char>, dep: SegmentDependencyView) -> Seq<char> {
    match dep.dependency_type {
        DependencyType::MustFollow => msg_must_follow(id, dep.depends_on),
        DependencyType::MustPrecede => msg_must_precede(id, dep.depends_on),
        DependencyType::MutuallyExclusive => msg_exclusive(id, dep.depends_on),
        DependencyType::RequiredIf => Seq::empty(),
    }
}

/// Diagnostics from the dependencies of the segment at position `i`, in
/// declaration order.
pub open spec fn spec_dep_results(
    ids: Seq<Seq<char>>,
    i: int,
    deps: Seq<SegmentDependencyView>,
) -> Seq<ValidationResultView>
    decreases deps.len(),
{
    if deps.len() == 0 {
        Seq::empty()
    } else {
        spec_dep_results(ids, i, deps.drop_last()) + (if dep_violated(ids, i, deps.last()) {
            seq![res_error(dep_message(ids[i], deps.last()), Some(i as usize))]
        } else {
            Seq::<ValidationResultView>::empty()
        })
    }
}

/// Diagnostics for the segment at position `i`: an unknown-segment warning,
/// or the usage-count check, the hierarchy check, and the dependency checks,
/// in that order.
pub open spec fn spec_position_results(
    schema: Seq<SegmentSchemaView>,
    ids: Seq<Seq<char>>,
    i: int,
) -> Seq<ValidationResultView> {
    let j = find_schema_idx(schema, ids[i]);
    if j == schema.len() {
        seq![res_warning(msg_unknown(ids[i], i), Some(i as usize))]
    } else {
        let s = schema[j];
        (match s.max_use {
            Some(m) => if count_matches(ids.take(i + 1), ids[i]) > m {
                seq![res_error(msg_max_use(ids[i], m, i), Some(i as usize))]
            } else {
                Seq::<ValidationResultView>::empty()
            },
            None => Seq::<ValidationResultView>::empty(),
        }) + (if s.hierarchy_level < hier_max(schema, ids, i) {
            seq![res_warning(msg_hier(ids[i], i), Some(i as usize))]
        } else {
            Seq::<ValidationResultView>::empty()
        }) + spec_dep_results(ids, i, s.dependencies)
    }
}

/// Diagnostics from scanning the first `n` segments, in order.
pub open spec fn spec_scan_results(
    schema: Seq<SegmentSchemaView>,
    ids: Seq<Seq<char>>,
    n: int,
) -> Seq<ValidationResultView>
    decreases n,
{
    if n <= 0 {
        Seq::empty()
    } else {
        spec_scan_results(schema, ids, n - 1) + spec_position_results(schema, ids, n - 1)
    }
}

/// Missing-mandatory-segment errors for the first `n` layout entries, in
/// layout order.
pub open spec fn spec_missing_results(
    schema: Seq<SegmentSchemaView>,
    ids: Seq<Seq<char>>,
    n: int,
) -> Seq<ValidationResultView>
    decreases n,
{
    if n <= 0 {
        Seq::empty()
    } else {
        spec_missing_results(schema, ids, n - 1) + (if schema[n - 1].requirement
            is Mandatory && !ids.contains(schema[n - 1].segment_id) {
            seq![res_error(msg_missing(schema[n - 1].segment_id), None)]
        } else {
            Seq::<ValidationResultView>::empty()
        })
    }
}

/// Every diagnostic the structure scan produces for a segment list, in order:
/// the per-position checks, then the mandatory-presence checks.
pub open spec fn spec_structure_results(
    schema: Seq<SegmentSchemaView>,
    ids: Seq<Seq<char>>,
) -> Seq<ValidationResultView> {
    spec_scan_results(schema, ids, ids.len() as int) + spec_missing_results(
        schema,
        ids,
        schema.len() as int,
    )
}

// ---------------------------------------------------------------------------
// The structure scan, executable
// ---------------------------------------------------------------------------

/// Index of the first layout entry for an identifier.
fn find_schema_entry(schema: &Vec<SegmentSchema>, id: &String) -> (r: Option<usize>)
    ensures
        match r {
            Some(j) => j == find_schema_idx(schema.deep_view(), id@) && j < schema@.len(),
            None => find_schema_idx(schema.deep_view(), id@) == schema@.len(),
        },
{
    let mut j: usize = 0;
    while j < schema.len()
        invariant
            j <= schema@.len(),
            forall|k: int| 0 <= k < j ==> schema.deep_view()[k].segment_id != id@,
        decreases schema@.len() - j,
    {
        proof {
            assert(schema.deep_view()[j as int].segment_id == schema@[j as int].segment_id@);
        }
        if string_eq_str(&schema[j].segment_id, id.as_str()) {
            proof {
                lemma_find_schema_idx_is(schema.deep_view(), id@, j as int);
            }
            return Some(j);
        }
        j = j + 1;
    }
    proof {
        lemma_find_schema_idx_is(schema.deep_view(), id@, schema@.len() as int);
    }
    None
}

/// Occurrences of an identifier among the first `n` segments.
fn count_occurrences(segments: &[String], n: usize, id: &String) -> (r: usize)
    requires
        n <= segments@.len(),
    ensures
        r == count_matches(segments.deep_view().take(n as int), id@),
{
    let mut count: usize = 0;
    let mut k: usize = 0;
    while k < n
        invariant
            k <= n <= segments@.len(),
            count == count_matches(segments.deep_view().take(k as int), id@),
            count <= k,
        decreases n - k,
    {
        proof {
            assert(segments.deep_view().take(k as int + 1).drop_last() =~= segments.deep_view().take(
                k as int,
            ));
            assert(segments.deep_view().take(k as int + 1).last() == segments@[k as int]@);
        }
        if string_eq_str(&segments[k], id.as_str()) {
            count = count + 1;
        }
        k = k + 1;
    }
    count
}

/// Whether an identifier occurs among the first `n` segments.
fn contains_in_prefix(segments: &[String], n: usize, id: &String) -> (r: bool)
    requires
        n <= segments@.len(),
    ensures
        r == segments.deep_view().take(n as int).contains(id@),
{
    let mut k: usize = 0;
    while k < n
        invariant
            k <= n <= segments@.len(),
            forall|t: int| 0 <= t < k ==> segments.deep_view()[t] != id@,
        decreases n - k,
    {
        if string_eq_str(&segments[k], id.as_str()) {
            proof {
                assert(segments.deep_view().take(n as int)[k as int] == id@);
            }
            return true;
        }
        k = k + 1;
    }
    proof {
        assert forall|t: int| 0 <= t < n implies #[trigger] segments.deep_view().take(n as int)[t]
            != id@ by {
            assert(segments.deep_view()[t] != id@);
        }
        assert(!segments.deep_view().take(n as int).contains(id@));
    }
    false
}

/// Whether an identifier occurs after position `i`.
fn contains_after(segments: &[String], i: usize, id: &String) -> (r: bool)
    requires
        i < segments@.len(),
    ensures
        r == segments.deep_view().skip(i as int + 1).contains(id@),
{
    let n = segments.len();
    let mut k: usize = i + 1;
    while k < n
        invariant
            i + 1 <= k <= n,
            n == segments@.len(),
            forall|t: int| i + 1 <= t < k ==> segments.deep_view()[t] != id@,
        decreases n - k,
    {
        if string_eq_str(&segments[k], id.as_str()) {
            proof {
                assert(segments.deep_view().skip(i as int + 1)[k - i - 1] == id@);
            }
            return true;
        }
        k = k + 1;
    }
    proof {
        assert forall|t: int|
            0 <= t < segments.deep_view().skip(i as int + 1).len() implies #[trigger] segments.deep_view().skip(
            i as int + 1,
        )[t] != id@ by {
            assert(segments.deep_view().skip(i as int + 1)[t] == segments.deep_view()[t + i + 1]);
        }
        assert(!segments.deep_view().skip(i as int + 1).contains(id@));
    }
    false
}

/// Whether an identifier occurs anywhere but position `i`.
fn contains_elsewhere(segments: &[String], i: usize, id: &String) -> (r: bool)
    requires
        i < segments@.len(),
    ensures
        r == exists|k: int|
            0 <= k < segments@.len() && k != i && segments.deep_view()[k] == id@,
{
    let n = segments.len();
    let mut k: usize = 0;
    while k < n
        invariant
            k <= n,
            n == segments@.len(),
            forall|t: int| 0 <= t < k && t != i ==> segments.deep_view()[t] != id@,
        decreases n - k,
    {
        if k != i && string_eq_str(&segments[k], id.as_str()) {
            proof {
                assert(segments.deep_view()[k as int] == id@);
            }
            return true;
        }
        k = k + 1;
    }
    false
}

fn error_result(message: String, pos: usize) -> (r: ValidationResult)
    ensures
        r@ == res_error(message@, Some(pos)),
{
    ValidationResult {
        result_type: ValidationResultType::Error,
        message,
        segment_position: Some(pos),
        element_position: None,
    }
}

fn warning_result(message: String, pos: usize) -> (r: ValidationResult)
    ensures
        r@ == res_warning(message@, Some(pos)),
{
    ValidationResult {
        result_type: ValidationResultType::Warning,
        message,
        segment_position: Some(pos),
        element_position: None,
    }
}

/// The diagnostics for the segment at position `i`, given the running
/// hierarchy maximum.
fn validate_position(
    schema: &Vec<SegmentSchema>,
    segments: &[String],
    i: usize,
    cur_max: u32,
) -> (r: Vec<ValidationResult>)
    requires
        i < segments@.len(),
        i < usize::MAX,
        cur_max == hier_max(schema.deep_view(), segments.deep_view(), i as int),
    ensures
        r.deep_view() == spec_position_results(schema.deep_view(), segments.deep_view(), i as int),
{
    let ghost ids = segments.deep_view();
    let ghost sv = schema.deep_view();
    let id = &segments[i];
    proof {
        assert(id@ == ids[i as int]);
    }
    let mut results: Vec<ValidationResult> = Vec::new();
    match find_schema_entry(schema, id) {
        None => {
            let msg = String::from_str("Unknown segment ").concat(id.as_str()).concat(
                " at position ",
            ).concat(usize_to_string(i + 1).as_str());
            results.push(warning_result(msg, i));
            proof {
                assert(results.deep_view() =~= spec_position_results(sv, ids, i as int));
            }
            results
        },
        Some(j) => {
            let entry = &schema[j];
            proof {
                assert(entry@ == sv[j as int]);
            }
            match entry.max_use {
                Some(m) => {
                    let count = count_occurrences(segments, i + 1, id);
                    if count > m as usize {
                        let msg = String::from_str("Segment ").concat(id.as_str()).concat(
                            " exceeds maximum usage of ",
                        ).concat(u32_to_string(m).as_str()).concat(" at position ").concat(
                            usize_to_string(i + 1).as_str(),
                        );
                        results.push(error_result(msg, i));
                    }
                },
                None => {},
            }
            let ghost after_max = results.deep_view();
            if entry.hierarchy_level < cur_max {
                let msg = String::from_str("Segment ").concat(id.as_str()).concat(
                    " appears to move backwards in hierarchy at position ",
                ).concat(usize_to_string(i + 1).as_str());
                results.push(warning_result(msg, i));
            }
            let ghost before_deps = results.deep_view();
            proof {
                assert(before_deps =~= (match sv[j as int].max_use {
                    Some(m) => if count_matches(ids.take(i as int + 1), ids[i as int]) > m {
                        seq![
                            res_error(
                                msg_max_use(ids[i as int], m, i as int),
                                Some(i),
                            ),
                        ]
                    } else {
                        Seq::<ValidationResultView>::empty()
                    },
                    None => Seq::<ValidationResultView>::empty(),
                }) + (if sv[j as int].hierarchy_level < hier_max(sv, ids, i as int) {
                    seq![res_warning(msg_hier(ids[i as int], i as int), Some(i))]
                } else {
                    Seq::<ValidationResultView>::empty()
                }));
            }
            let mut d: usize = 0;
            while d < entry.dependencies.len()
                invariant
                    d <= entry.dependencies@.len(),
                    i < segments@.len(),
                    ids == segments.deep_view(),
                    entry@ == sv[j as int],
                    id@ == ids[i as int],
                    results.deep_view() =~= before_deps + spec_dep_results(
                        ids,
                        i as int,
                        entry@.dependencies.take(d as int),
                    ),
                decreases entry.dependencies@.len() - d,
            {
                let dep = &entry.dependencies[d];
                proof {
                    assert(dep@ == entry@.dependencies[d as int]);
                    assert(entry@.dependencies.take(d as int + 1).drop_last()
                        =~= entry@.dependencies.take(d as int));
                    assert(entry@.dependencies.take(d as int + 1).last() == dep@);
                }
                let violated: bool = match dep.dependency_type {
                    DependencyType::MustFollow => !contains_in_prefix(segments, i, &dep.depends_on),
                    DependencyType::MustPrecede => !contains_after(segments, i, &dep.depends_on),
                    DependencyType::MutuallyExclusive => contains_elsewhere(
                        segments,
                        i,
                        &dep.depends_on,
                    ),
                    DependencyType::RequiredIf => false,
                };
                proof {
                    assert(violated == dep_violated(ids, i as int, dep@));
                }
                let ghost prevr = results.deep_view();
                if violated {
                    let msg = match dep.dependency_type {
                        DependencyType::MustFollow => String::from_str("Segment ").concat(
                            id.as_str(),
                        ).concat(" requires ").concat(dep.depends_on.as_str()).concat(
                            " to appear before it",
                        ),
                        DependencyType::MustPrecede => String::from_str("Segment ").concat(
                            id.as_str(),
                        ).concat(" requires ").concat(dep.depends_on.as_str()).concat(
                            " to appear after it",
                        ),
                        DependencyType::MutuallyExclusive => String::from_str("Segment ").concat(
                            id.as_str(),
                        ).concat(" cannot appear together with ").concat(dep.depends_on.as_str()),
                        DependencyType::RequiredIf => String::new(),
                    };
                    proof {
                        assert(msg@ == dep_message(ids[i as int], dep@));
                    }
                    let res = error_result(msg, i);
                    let ghost resv = res@;
                    results.push(res);
                    proof {
                        assert(results.deep_view() =~= prevr.push(resv));
                    }
                }
                proof {
                    assert(results.deep_view() =~= before_deps + spec_dep_results(
                        ids,
                        i as int,
                        entry@.dependencies.take(d as int + 1),
                    ));
                }
                d = d + 1;
            }
            proof {
                assert(entry@.dependencies.take(entry@.dependencies.len() as int)
                    =~= entry@.dependencies);
                assert(results.deep_view() =~= spec_position_results(sv, ids, i as int));
            }
            results
        },
    }
}

/// The mathematical content of an `ElementMasterDefinition`, the
/// version-implementation table aside.
#[verifier::ext_equal]
pub struct ElementMasterDefinitionView {
    pub element_id: u32,
    pub name: Seq<char>,
    pub description: Seq<char>,
    pub data_type: ElementDataType,
    pub min_length: Option<u32>,
    pub max_length: Option<u32>,
}

impl View for ElementMasterDefinition {
    type V = ElementMasterDefinitionView;

    open spec fn view(&self) -> ElementMasterDefinitionView {
        ElementMasterDefinitionView {
            element_id: self.element_id,
            name: self.name@,
            description: self.description@,
            data_type: self.data_type,
            min_length: self.min_length,
            max_length: self.max_length,
        }
    }
}

/// The first dictionary entry under an element identifier.
pub open spec fn spec_dict_lookup(
    entries: Seq<(u32, ElementMasterDefinitionView)>,
    element_id: u32,
) -> Option<ElementMasterDefinitionView>
    decreases entries.len(),
{
    if entries.len() == 0 {
        None
    } else if entries[0].0 == element_id {
        Some(entries[0].1)
    } else {
        spec_dict_lookup(entries.drop_first(), element_id)
    }
}

// ---------------------------------------------------------------------------
// The standard transaction layouts
// ---------------------------------------------------------------------------

pub open spec fn sdep(
    on: Seq<char>,
    ty: DependencyType,
    condition: Option<Seq<char>>,
) -> SegmentDependencyView {
    SegmentDependencyView { depends_on: on, dependency_type: ty, condition }
}

pub open spec fn srule(
    rule_id: Seq<char>,
    description: Seq<char>,
    condition: Seq<char>,
    action: ValidationActionView,
) -> ContextRuleView {
    ContextRuleView { rule_id, description, condition, action }
}

pub open spec fn sseg(
    id: Seq<char>,
    name: Seq<char>,
    requirement: SegmentRequirementView,
    max_use: Option<u32>,
    level: u32,
    dependencies: Seq<SegmentDependencyView>,
    context_rules: Seq<ContextRuleView>,
) -> SegmentSchemaView {
    SegmentSchemaView {
        segment_id: id,
        name,
        requirement,
        max_use,
        hierarchy_level: level,
        dependencies,
        context_rules,
    }
}

/// The purchase-order layout: header segments, party and line-item detail,
/// and summary, with usage bounds, hierarchy levels and ordering
/// dependencies.
pub open spec fn spec_850_segments() -> Seq<SegmentSchemaView> {
    seq![
        sseg(
            "ST"@,
            "Transaction Set Header"@,
            SegmentRequirementView::Mandatory,
            Some(1u32),
            0,
            Seq::empty(),
            Seq::empty(),
        ),
        sseg(
            "BEG"@,
            "Beginning Segment for Purchase Order"@,
            SegmentRequirementView::Mandatory,
            Some(1u32),
            0,
            seq![sdep("ST"@, DependencyType::MustFollow, None)],
            Seq::empty(),
        ),
        sseg(
            "CUR"@,
            "Currency"@,
            SegmentRequirementView::Optional,
            Some(1u32),
            0,
            Seq::empty(),
            seq![
                srule(
                    "CUR_01_VALIDATION"@,
                    "Currency code must be valid ISO 4217"@,
                    "CUR01 is present"@,
                    ValidationActionView::Error("Invalid currency code"@),
                ),
            ],
        ),
        sseg(
            "REF"@,
            "Reference Identification"@,
            SegmentRequirementView::Optional,
            None,
            0,
            Seq::empty(),
            Seq::empty(),
        ),
        sseg(
            "PER"@,
            "Administrative Communications Contact"@,
            SegmentRequirementView::Optional,
            Some(3u32),
            0,
            Seq::empty(),
            Seq::empty(),
        ),
        sseg(
            "DTM"@,
            "Date/Time Reference"@,
            SegmentRequirementView::Optional,
            Some(10u32),
            0,
            Seq::empty(),
            Seq::empty(),
        ),
        sseg(
            "N1"@,
            "Name"@,
            SegmentRequirementView::Optional,
            Some(200u32),
            1,
            Seq::empty(),
            Seq::empty(),
        ),
        sseg(
            "N2"@,
            "Additional Name Information"@,
            SegmentRequirementView::Optional,
            Some(2u32),
            1,
            seq![sdep("N1"@, DependencyType::RequiredIf, Some("N1 segment is present"@))],
            Seq::empty(),
        ),
        sseg(
            "N3"@,
            "Address Information"@,
            SegmentRequirementView::Optional,
            Some(2u32),
            1,
            seq![sdep("N1"@, DependencyType::RequiredIf, Some("N1 segment is present"@))],
            Seq::empty(),
        ),
        sseg(
            "N4"@,
            "Geographic Location"@,
            SegmentRequirementView::Optional,
            Some(1u32),
            1,
            seq![sdep("N1"@, DependencyType::RequiredIf, Some("N1 segment is present"@))],
            Seq::empty(),
        ),
        sseg(
            "PO1"@,
            "Baseline Item Data"@,
            SegmentRequirementView::Mandatory,
            Some(100000u32),
            1,
            Seq::empty(),
            seq![
                srule(
                    "PO1_QUANTITY_PRICE"@,
                    "Either quantity or price must be specified"@,
                    "PO102 or PO104 must be present"@,
                    ValidationActionView::Error("Missing quantity or price"@),
                ),
            ],
        ),
        sseg(
            "CUR"@,
            "Currency"@,
            SegmentRequirementView::Optional,
            Some(1u32),
            1,
            seq![sdep("PO1"@, DependencyType::RequiredIf, Some("PO1 segment is present"@))],
            Seq::empty(),
        ),
        sseg(
            "PID"@,
            "Product/Item Description"@,
            SegmentRequirementView::Optional,
            Some(1000u32),
            1,
            seq![sdep("PO1"@, DependencyType::RequiredIf, Some("PO1 segment is present"@))],
            Seq::empty(),
        ),
        sseg(
            "CTT"@,
            "Transaction Totals"@,
            SegmentRequirementView::Optional,
            Some(1u32),
            2,
            Seq::empty(),
            seq![
                srule(
                    "CTT_LINE_COUNT"@,
                    "Line count must match actual PO1 segments"@,
                    "CTT01 is present"@,
                    ValidationActionView::Error("Line count mismatch"@),
                ),
            ],
        ),
        sseg(
            "SE"@,
            "Transaction Set Trailer"@,
            SegmentRequirementView::Mandatory,
            Some(1u32),
            2,
            Seq::empty(),
            Seq::empty(),
        ),
    ]
}

/// What one engine entry must look like.
pub open spec fn tx_entry_ok(
    e: TxSetEntryView,
    ty: Seq<char>,
    v: X12Version,
    name: Seq<char>,
    segs: Seq<SegmentSchemaView>,
) -> bool {
    &&& e.transaction_type == ty
    &&& e.version == v
    &&& e.schema.transaction_type == ty
    &&& e.schema.version == v
    &&& e.schema.name == name
    &&& e.schema.segments == segs
    &&& e.schema.trading_partner_agreements.len() == 0
}

/// What a freshly initialized engine holds: the five standard transaction
/// sets, each for the three versions, in registration order; only the
/// purchase order carries a full layout.
pub open spec fn engine_initialized(entries: Seq<TxSetEntryView>) -> bool {
    &&& entries.len() == 15
    &&& tx_entry_ok(entries[0], "850"@, X12Version::V4010, "Purchase Order"@, spec_850_segments())
    &&& tx_entry_ok(entries[1], "850"@, X12Version::V5010, "Purchase Order"@, spec_850_segments())
    &&& tx_entry_ok(entries[2], "850"@, X12Version::V8010, "Purchase Order"@, spec_850_segments())
    &&& tx_entry_ok(entries[3], "810"@, X12Version::V4010, "Invoice"@, Seq::empty())
    &&& tx_entry_ok(entries[4], "810"@, X12Version::V5010, "Invoice"@, Seq::empty())
    &&& tx_entry_ok(entries[5], "810"@, X12Version::V8010, "Invoice"@, Seq::empty())
    &&& tx_entry_ok(
        entries[6],
        "997"@,
        X12Version::V4010,
        "Functional Acknowledgment"@,
        Seq::empty(),
    )
    &&& tx_entry_ok(
        entries[7],
        "997"@,
        X12Version::V5010,
        "Functional Acknowledgment"@,
        Seq::empty(),
    )
    &&& tx_entry_ok(
        entries[8],
        "997"@,
        X12Version::V8010,
        "Functional Acknowledgment"@,
        Seq::empty(),
    )
    &&& tx_entry_ok(entries[9], "856"@, X12Version::V4010, "Advance Ship Notice"@, Seq::empty())
    &&& tx_entry_ok(entries[10], "856"@, X12Version::V5010, "Advance Ship Notice"@, Seq::empty())
    &&& tx_entry_ok(entries[11], "856"@, X12Version::V8010, "Advance Ship Notice"@, Seq::empty())
    &&& tx_entry_ok(
        entries[12],
        "860"@,
        X12Version::V4010,
        "Purchase Order Change Request - Buyer Initiated"@,
        Seq::empty(),
    )
    &&& tx_entry_ok(
        entries[13],
        "860"@,
        X12Version::V5010,
        "Purchase Order Change Request - Buyer Initiated"@,
        Seq::empty(),
    )
    &&& tx_entry_ok(
        entries[14],
        "860"@,
        X12Version::V8010,
        "Purchase Order Change Request - Buyer Initiated"@,
        Seq::empty(),
    )
}

/// What a freshly initialized dictionary holds: the entity identifier code
/// and the currency code.
pub open spec fn dictionary_initialized(d: Seq<(u32, ElementMasterDefinitionView)>) -> bool {
    &&& d.len() == 2
    &&& d[0].0 == 98
    &&& d[0].1.element_id == 98
    &&& d[0].1.name == "Entity Identifier Code"@
    &&& d[0].1.data_type == ElementDataType::ID
    &&& d[0].1.min_length == Some(2u32)
    &&& d[0].1.max_length == Some(3u32)
    &&& d[1].0 == 100
    &&& d[1].1.element_id == 100
    &&& d[1].1.name == "Currency Code"@
    &&& d[1].1.data_type == ElementDataType::ID
    &&& d[1].1.min_length == Some(3u32)
    &&& d[1].1.max_length == Some(3u32)
}

/// Transaction types registered for one version, in registration order.
pub open spec fn spec_types_for_version(entries: Seq<TxSetEntryView>, version: X12Version) -> Seq<
    Seq<char>,
>
    decreases entries.len(),
{
    if entries.len() == 0 {
        Seq::empty()
    } else {
        spec_types_for_version(entries.drop_last(), version) + (if entries.last().version
            == version {
            seq![entries.last().transaction_type]
        } else {
            Seq::<Seq<char>>::empty()
        })
    }
}

/// Versions one transaction type is registered for, in registration order.
pub open spec fn spec_versions_for_type(
    entries: Seq<TxSetEntryView>,
    transaction_type: Seq<char>,
) -> Seq<X12Version>
    decreases entries.len(),
{
    if entries.len() == 0 {
        Seq::empty()
    } else {
        spec_versions_for_type(entries.drop_last(), transaction_type) + (if entries.last().transaction_type
            == transaction_type {
            seq![entries.last().version]
        } else {
            Seq::<X12Version>::empty()
        })
    }
}

fn make_codes(codes: &[&str]) -> (r: Vec<String>)
    ensures
        r.deep_view() == Seq::new(codes@.len(), |i: int| codes@[i]@),
{
    let mut r: Vec<String> = Vec::new();
    let mut i: usize = 0;
    while i < codes.len()
        invariant
            i <= codes@.len(),
            r.deep_view() =~= Seq::new(codes@.len(), |k: int| codes@[k]@).take(i as int),
        decreases codes@.len() - i,
    {
        let ghost prev = r.deep_view();
        let c = String::from_str(codes[i]);
        r.push(c);
        proof {
            assert(r.deep_view() =~= prev.push(codes@[i as int]@));
            assert(r.deep_view() =~= Seq::new(codes@.len(), |k: int| codes@[k]@).take(i as int + 1));
        }
        i = i + 1;
    }
    proof {
        assert(r.deep_view() =~= Seq::new(codes@.len(), |k: int| codes@[k]@));
    }
    r
}

fn mk_dep(on: &str, dependency_type: DependencyType, condition: Option<&str>) -> (r:
    SegmentDependency)
    ensures
        r@ == sdep(
            on@,
            dependency_type,
            match condition {
                Some(c) => Some(c@),
                None => None,
            },
        ),
{
    SegmentDependency {
        depends_on: String::from_str(on),
        dependency_type,
        condition: match condition {
            Some(c) => Some(String::from_str(c)),
            None => None,
        },
    }
}

fn mk_error_rule(rule_id: &str, description: &str, condition: &str, action_message: &str) -> (r:
    ContextRule)
    ensures
        r@ == srule(
            rule_id@,
            description@,
            condition@,
            ValidationActionView::Error(action_message@),
        ),
{
    ContextRule {
        rule_id: String::from_str(rule_id),
        description: String::from_str(description),
        condition: String::from_str(condition),
        action: ValidationAction::Error(String::from_str(action_message)),
    }
}

fn mk_seg(
    id: &str,
    name: &str,
    requirement: SegmentRequirement,
    max_use: Option<u32>,
    hierarchy_level: u32,
    dependencies: Vec<SegmentDependency>,
    context_rules: Vec<ContextRule>,
) -> (r: SegmentSchema)
    ensures
        r@ == sseg(
            id@,
            name@,
            requirement@,
            max_use,
            hierarchy_level,
            dependencies.deep_view(),
            context_rules.deep_view(),
        ),
{
    SegmentSchema {
        segment_id: String::from_str(id),
        name: String::from_str(name),
        requirement,
        max_use,
        hierarchy_level,
        dependencies,
        context_rules,
    }
}

impl SchemaEngine {
    /// The dictionary entries, keyed by element identifier, in insertion
    /// order.
    pub closed spec fn dict(&self) -> Seq<(u32, ElementMasterDefinitionView)> {
        Seq::new(
            self.element_dictionary@.len(),
            |i: int| (self.element_dictionary@[i].0, self.element_dictionary@[i].1@),
        )
    }

    /// An engine preloaded with the standard transaction layouts and the
    /// element dictionary.
    pub fn new() -> (r: Self)
        ensures
            engine_initialized(r@),
            dictionary_initialized(r.dict()),
    {
        let mut engine = SchemaEngine {
            transaction_sets: Vec::new(),
            element_dictionary: Vec::new(),
            segment_registry: Vec::new(),
        };
        proof {
            assert(engine@ =~= Seq::<TxSetEntryView>::empty());
        }
        engine.initialize_standard_schemas();
        engine
    }

    fn initialize_standard_schemas(&mut self)
        requires
            old(self)@.len() == 0,
            old(self).dict().len() == 0,
        ensures
            engine_initialized(final(self)@),
            dictionary_initialized(final(self).dict()),
    {
        self.register_850_schemas();
        self.register_810_schemas();
        self.register_997_schemas();
        self.register_856_schemas();
        self.register_860_schemas();
        self.initialize_element_dictionary();
    }

    /// Register one layout under its type and version.
    fn register_schema(&mut self, transaction_type: &str, version: X12Version, schema: TransactionSetSchema)
        ensures
            final(self)@ == old(self)@.push(
                TxSetEntryView { transaction_type: transaction_type@, version, schema: schema@ },
            ),
            final(self).dict() == old(self).dict(),
    {
        let ghost prev = self@;
        let ghost sv = schema@;
        self.transaction_sets.push((String::from_str(transaction_type), version, schema));
        proof {
            assert(self@ =~= prev.push(
                TxSetEntryView { transaction_type: transaction_type@, version, schema: sv },
            ));
            assert(self.dict() =~= old(self).dict());
        }
    }

    fn register_850_schemas(&mut self)
        ensures
            final(self)@.len() == old(self)@.len() + 3,
            final(self)@.take(old(self)@.len() as int) == old(self)@,
            tx_entry_ok(
                final(self)@[old(self)@.len() as int],
                "850"@,
                X12Version::V4010,
                "Purchase Order"@,
                spec_850_segments(),
            ),
            tx_entry_ok(
                final(self)@[old(self)@.len() as int + 1],
                "850"@,
                X12Version::V5010,
                "Purchase Order"@,
                spec_850_segments(),
            ),
            tx_entry_ok(
                final(self)@[old(self)@.len() as int + 2],
                "850"@,
                X12Version::V8010,
                "Purchase Order"@,
                spec_850_segments(),
            ),
            final(self).dict() == old(self).dict(),
    {
        let ghost prev = self@;
        let s1 = self.create_850_schema(X12Version::V4010);
        self.register_schema("850", X12Version::V4010, s1);
        let s2 = self.create_850_schema(X12Version::V5010);
        self.register_schema("850", X12Version::V5010, s2);
        let s3 = self.create_850_schema(X12Version::V8010);
        self.register_schema("850", X12Version::V8010, s3);
        proof {
            assert(self@.take(prev.len() as int) =~= prev);
        }
    }

    fn register_810_schemas(&mut self)
        ensures
            final(self)@.len() == old(self)@.len() + 3,
            final(self)@.take(old(self)@.len() as int) == old(self)@,
            tx_entry_ok(
                final(self)@[old(self)@.len() as int],
                "810"@,
                X12Version::V4010,
                "Invoice"@,
                Seq::empty(),
            ),
            tx_entry_ok(
                final(self)@[old(self)@.len() as int + 1],
                "810"@,
                X12Version::V5010,
                "Invoice"@,
                Seq::empty(),
            ),
            tx_entry_ok(
                final(self)@[old(self)@.len() as int + 2],
                "810"@,
                X12Version::V8010,
                "Invoice"@,
                Seq::empty(),
            ),
            final(self).dict() == old(self).dict(),
    {
        let ghost prev = self@;
        let s1 = self.create_810_schema(X12Version::V4010);
        self.register_schema("810", X12Version::V4010, s1);
        let s2 = self.create_810_schema(X12Version::V5010);
        self.register_schema("810", X12Version::V5010, s2);
        let s3 = self.create_810_schema(X12Version::V8010);
        self.register_schema("810", X12Version::V8010, s3);
        proof {
            assert(self@.take(prev.len() as int) =~= prev);
        }
    }

    fn register_997_schemas(&mut self)
        ensures
            final(self)@.len() == old(self)@.len() + 3,
            final(self)@.take(old(self)@.len() as int) == old(self)@,
            tx_entry_ok(
                final(self)@[old(self)@.len() as int],
                "997"@,
                X12Version::V4010,
                "Functional Acknowledgment"@,
                Seq::empty(),
            ),
            tx_entry_ok(
                final(self)@[old(self)@.len() as int + 1],
                "997"@,
                X12Version::V5010,
                "Functional Acknowledgment"@,
                Seq::empty(),
            ),
            tx_entry_ok(
                final(self)@[old(self)@.len() as int + 2],
                "997"@,
                X12Version::V8010,
                "Functional Acknowledgment"@,
                Seq::empty(),
            ),
            final(self).dict() == old(self).dict(),
    {
        let ghost prev = self@;
        let s1 = self.create_997_schema(X12Version::V4010);
        self.register_schema("997", X12Version::V4010, s1);
        let s2 = self.create_997_schema(X12Version::V5010);
        self.register_schema("997", X12Version::V5010, s2);
        let s3 = self.create_997_schema(X12Version::V8010);
        self.register_schema("997", X12Version::V8010, s3);
        proof {
            assert(self@.take(prev.len() as int) =~= prev);
        }
    }

    fn register_856_schemas(&mut self)
        ensures
            final(self)@.len() == old(self)@.len() + 3,
            final(self)@.take(old(self)@.len() as int) == old(self)@,
            tx_entry_ok(
                final(self)@[old(self)@.len() as int],
                "856"@,
                X12Version::V4010,
                "Advance Ship Notice"@,
                Seq::empty(),
            ),
            tx_entry_ok(
                final(self)@[old(self)@.len() as int + 1],
                "856"@,
                X12Version::V5010,
                "Advance Ship Notice"@,
                Seq::empty(),
            ),
            tx_entry_ok(
                final(self)@[old(self)@.len() as int + 2],
                "856"@,
                X12Version::V8010,
                "Advance Ship Notice"@,
                Seq::empty(),
            ),
            final(self).dict() == old(self).dict(),
    {
        let ghost prev = self@;
        let s1 = self.create_856_schema(X12Version::V4010);
        self.register_schema("856", X12Version::V4010, s1);
        let s2 = self.create_856_schema(X12Version::V5010);
        self.register_schema("856", X12Version::V5010, s2);
        let s3 = self.create_856_schema(X12Version::V8010);
        self.register_schema("856", X12Version::V8010, s3);
        proof {
            assert(self@.take(prev.len() as int) =~= prev);
        }
    }

    fn register_860_schemas(&mut self)
        ensures
            final(self)@.len() == old(self)@.len() + 3,
            final(self)@.take(old(self)@.len() as int) == old(self)@,
            tx_entry_ok(
                final(self)@[old(self)@.len() as int],
                "860"@,
                X12Version::V4010,
                "Purchase Order Change Request - Buyer Initiated"@,
                Seq::empty(),
            ),
            tx_entry_ok(
                final(self)@[old(self)@.len() as int + 1],
                "860"@,
                X12Version::V5010,
                "Purchase Order Change Request - Buyer Initiated"@,
                Seq::empty(),
            ),
            tx_entry_ok(
                final(self)@[old(self)@.len() as int + 2],
                "860"@,
                X12Version::V8010,
                "Purchase Order Change Request - Buyer Initiated"@,
                Seq::empty(),
            ),
            final(self).dict() == old(self).dict(),
    {
        let ghost prev = self@;
        let s1 = self.create_860_schema(X12Version::V4010);
        self.register_schema("860", X12Version::V4010, s1);
        let s2 = self.create_860_schema(X12Version::V5010);
        self.register_schema("860", X12Version::V5010, s2);
        let s3 = self.create_860_schema(X12Version::V8010);
        self.register_schema("860", X12Version::V8010, s3);
        proof {
            assert(self@.take(prev.len() as int) =~= prev);
        }
    }

    /// The purchase-order layout for one version.
    fn create_850_schema(&self, version: X12Version) -> (r: TransactionSetSchema)
        ensures
            r@.transaction_type == "850"@,
            r@.version == version,
            r@.name == "Purchase Order"@,
            r@.segments == spec_850_segments(),
            r@.trading_partner_agreements.len() == 0,
    {
        let segments: Vec<SegmentSchema> = vec![
            mk_seg(
                "ST",
                "Transaction Set Header",
                SegmentRequirement::Mandatory,
                Some(1),
                0,
                Vec::new(),
                Vec::new(),
            ),
            mk_seg(
                "BEG",
                "Beginning Segment for Purchase Order",
                SegmentRequirement::Mandatory,
                Some(1),
                0,
                vec![mk_dep("ST", DependencyType::MustFollow, None)],
                Vec::new(),
            ),
            mk_seg(
                "CUR",
                "Currency",
                SegmentRequirement::Optional,
                Some(1),
                0,
                Vec::new(),
                vec![
                    mk_error_rule(
                        "CUR_01_VALIDATION",
                        "Currency code must be valid ISO 4217",
                        "CUR01 is present",
                        "Invalid currency code",
                    ),
                ],
            ),
            mk_seg(
                "REF",
                "Reference Identification",
                SegmentRequirement::Optional,
                None,
                0,
                Vec::new(),
                Vec::new(),
            ),
            mk_seg(
                "PER",
                "Administrative Communications Contact",
                SegmentRequirement::Optional,
                Some(3),
                0,
                Vec::new(),
                Vec::new(),
            ),
            mk_seg(
                "DTM",
                "Date/Time Reference",
                SegmentRequirement::Optional,
                Some(10),
                0,
                Vec::new(),
                Vec::new(),
            ),
            mk_seg("N1", "Name", SegmentRequirement::Optional, Some(200), 1, Vec::new(), Vec::new()),
            mk_seg(
                "N2",
                "Additional Name Information",
                SegmentRequirement::Optional,
                Some(2),
                1,
                vec![mk_dep("N1", DependencyType::RequiredIf, Some("N1 segment is present"))],
                Vec::new(),
            ),
            mk_seg(
                "N3",
                "Address Information",
                SegmentRequirement::Optional,
                Some(2),
                1,
                vec![mk_dep("N1", DependencyType::RequiredIf, Some("N1 segment is present"))],
                Vec::new(),
            ),
            mk_seg(
                "N4",
                "Geographic Location",
                SegmentRequirement::Optional,
                Some(1),
                1,
                vec![mk_dep("N1", DependencyType::RequiredIf, Some("N1 segment is present"))],
                Vec::new(),
            ),
            mk_seg(
                "PO1",
                "Baseline Item Data",
                SegmentRequirement::Mandatory,
                Some(100000),
                1,
                Vec::new(),
                vec![
                    mk_error_rule(
                        "PO1_QUANTITY_PRICE",
                        "Either quantity or price must be specified",
                        "PO102 or PO104 must be present",
                        "Missing quantity or price",
                    ),
                ],
            ),
            mk_seg(
                "CUR",
                "Currency",
                SegmentRequirement::Optional,
                Some(1),
                1,
                vec![mk_dep("PO1", DependencyType::RequiredIf, Some("PO1 segment is present"))],
                Vec::new(),
            ),
            mk_seg(
                "PID",
                "Product/Item Description",
                SegmentRequirement::Optional,
                Some(1000),
                1,
                vec![mk_dep("PO1", DependencyType::RequiredIf, Some("PO1 segment is present"))],
                Vec::new(),
            ),
            mk_seg(
                "CTT",
                "Transaction Totals",
                SegmentRequirement::Optional,
                Some(1),
                2,
                Vec::new(),
                vec![
                    mk_error_rule(
                        "CTT_LINE_COUNT",
                        "Line count must match actual PO1 segments",
                        "CTT01 is present",
                        "Line count mismatch",
                    ),
                ],
            ),
            mk_seg(
                "SE",
                "Transaction Set Trailer",
                SegmentRequirement::Mandatory,
                Some(1),
                2,
                Vec::new(),
                Vec::new(),
            ),
        ];
        proof {
            assert(segments.deep_view() =~~= spec_850_segments());
        }
        TransactionSetSchema {
            transaction_type: String::from_str("850"),
            version,
            name: String::from_str("Purchase Order"),
            description: String::from_str(
                "The format and data contents of the Purchase Order Transaction Set for use within an Electronic Data Interchange environment",
            ),
            segments,
            trading_partner_agreements: Vec::new(),
        }
    }

    /// The invoice layout for one version: registered, but without segment
    /// detail yet.
    fn create_810_schema(&self, version: X12Version) -> (r: TransactionSetSchema)
        ensures
            r@.transaction_type == "810"@,
            r@.version == version,
            r@.name == "Invoice"@,
            r@.segments == Seq::<SegmentSchemaView>::empty(),
            r@.trading_partner_agreements.len() == 0,
    {
        let segments: Vec<SegmentSchema> = Vec::new();
        proof {
            assert(segments.deep_view() =~= Seq::<SegmentSchemaView>::empty());
        }
        TransactionSetSchema {
            transaction_type: String::from_str("810"),
            version,
            name: String::from_str("Invoice"),
            description: String::from_str("Invoice transaction set for billing information"),
            segments,
            trading_partner_agreements: Vec::new(),
        }
    }

    /// The functional acknowledgment layout for one version.
    fn create_997_schema(&self, version: X12Version) -> (r: TransactionSetSchema)
        ensures
            r@.transaction_type == "997"@,
            r@.version == version,
            r@.name == "Functional Acknowledgment"@,
            r@.segments == Seq::<SegmentSchemaView>::empty(),
            r@.trading_partner_agreements.len() == 0,
    {
        let segments: Vec<SegmentSchema> = Vec::new();
        proof {
            assert(segments.deep_view() =~= Seq::<SegmentSchemaView>::empty());
        }
        TransactionSetSchema {
            transaction_type: String::from_str("997"),
            version,
            name: String::from_str("Functional Acknowledgment"),
            description: String::from_str("Functional acknowledgment for transactions"),
            segments,
            trading_partner_agreements: Vec::new(),
        }
    }

    /// The advance ship notice layout for one version.
    fn create_856_schema(&self, version: X12Version) -> (r: TransactionSetSchema)
        ensures
            r@.transaction_type == "856"@,
            r@.version == version,
            r@.name == "Advance Ship Notice"@,
            r@.segments == Seq::<SegmentSchemaView>::empty(),
            r@.trading_partner_agreements.len() == 0,
    {
        let segments: Vec<SegmentSchema> = Vec::new();
        proof {
            assert(segments.deep_view() =~= Seq::<SegmentSchemaView>::empty());
        }
        TransactionSetSchema {
            transaction_type: String::from_str("856"),
            version,
            name: String::from_str("Advance Ship Notice"),
            description: String::from_str("Advance ship notice for shipment information"),
            segments,
            trading_partner_agreements: Vec::new(),
        }
    }

    /// The purchase order change layout for one version.
    fn create_860_schema(&self, version: X12Version) -> (r: TransactionSetSchema)
        ensures
            r@.transaction_type == "860"@,
            r@.version == version,
            r@.name == "Purchase Order Change Request - Buyer Initiated"@,
            r@.segments == Seq::<SegmentSchemaView>::empty(),
            r@.trading_partner_agreements.len() == 0,
    {
        let segments: Vec<SegmentSchema> = Vec::new();
        proof {
            assert(segments.deep_view() =~= Seq::<SegmentSchemaView>::empty());
        }
        TransactionSetSchema {
            transaction_type: String::from_str("860"),
            version,
            name: String::from_str("Purchase Order Change Request - Buyer Initiated"),
            description: String::from_str("Purchase order change request initiated by buyer"),
            segments,
            trading_partner_agreements: Vec::new(),
        }
    }

    fn initialize_element_dictionary(&mut self)
        requires
            old(self).dict().len() == 0,
        ensures
            final(self)@ == old(self)@,
            dictionary_initialized(final(self).dict()),
    {
        let mut impls98: HashMap<X12Version, ElementVersionInfo> = HashMap::new();
        impls98.insert(
            X12Version::V4010,
            ElementVersionInfo {
                valid_codes: Some(make_codes(&["BY", "SE", "BT", "ST", "SU"])),
                notes: Some(String::from_str("Version 4010 implementation")),
                usage_rules: make_codes(&["Must be present in CUR segment"]),
            },
        );
        impls98.insert(
            X12Version::V5010,
            ElementVersionInfo {
                valid_codes: Some(make_codes(&["BY", "SE", "BT", "ST", "SU", "VN"])),
                notes: Some(String::from_str("Version 5010 implementation with expanded codes")),
                usage_rules: make_codes(&["Must be present in CUR segment"]),
            },
        );
        impls98.insert(
            X12Version::V8010,
            ElementVersionInfo {
                valid_codes: Some(make_codes(&["BY", "SE", "BT", "ST", "SU", "VN", "3P"])),
                notes: Some(String::from_str("Version 8010 implementation with additional codes")),
                usage_rules: make_codes(&["Must be present in CUR segment"]),
            },
        );
        let def98 = ElementMasterDefinition {
            element_id: 98,
            name: String::from_str("Entity Identifier Code"),
            description: String::from_str(
                "Code identifying an organizational entity, a physical location, property or an individual",
            ),
            data_type: ElementDataType::ID,
            min_length: Some(2),
            max_length: Some(3),
            version_implementations: impls98,
        };
        let mut impls100: HashMap<X12Version, ElementVersionInfo> = HashMap::new();
        impls100.insert(
            X12Version::V4010,
            ElementVersionInfo {
                valid_codes: Some(make_codes(&["USD", "CAD", "EUR", "GBP", "JPY"])),
                notes: Some(String::from_str("ISO 4217 currency codes")),
                usage_rules: make_codes(&["Must be valid ISO 4217 code"]),
            },
        );
        impls100.insert(
            X12Version::V5010,
            ElementVersionInfo {
                valid_codes: None,
                notes: Some(String::from_str("Full ISO 4217 support")),
                usage_rules: make_codes(&["Must be valid ISO 4217 code"]),
            },
        );
        impls100.insert(
            X12Version::V8010,
            ElementVersionInfo {
                valid_codes: None,
                notes: Some(String::from_str("Full ISO 4217 support with digital currencies")),
                usage_rules: make_codes(
                    &["Must be valid ISO 4217 code or approved digital currency code"],
                ),
            },
        );
        let def100 = ElementMasterDefinition {
            element_id: 100,
            name: String::from_str("Currency Code"),
            description: String::from_str(
                "Code for country in whose currency the charges are specified",
            ),
            data_type: ElementDataType::ID,
            min_length: Some(3),
            max_length: Some(3),
            version_implementations: impls100,
        };
        let ghost prev = self@;
        self.element_dictionary.push((98, def98));
        self.element_dictionary.push((100, def100));
        proof {
            assert(self@ =~= prev);
        }
    }

    /// The layout registered under a transaction type and version.
    pub fn get_transaction_schema(&self, transaction_type: &str, version: &X12Version) -> (r:
        Option<&TransactionSetSchema>)
        ensures
            match r {
                Some(s) => spec_schema_lookup(self@, transaction_type@, *version) == Some(s@),
                None => spec_schema_lookup(self@, transaction_type@, *version) is None,
            },
    {
        let mut i: usize = self.transaction_sets.len();
        proof {
            assert(self@.take(i as int) =~= self@);
        }
        while i > 0
            invariant
                i <= self.transaction_sets@.len(),
                spec_schema_lookup(self@, transaction_type@, *version) == spec_schema_lookup(
                    self@.take(i as int),
                    transaction_type@,
                    *version,
                ),
            decreases i,
        {
            i = i - 1;
            proof {
                assert(self@.take(i as int + 1).last() == self@[i as int]);
                assert(self@.take(i as int + 1).drop_last() =~= self@.take(i as int));
                assert(self@[i as int].transaction_type == self.transaction_sets@[i as int].0@);
                assert(self@[i as int].schema == self.transaction_sets@[i as int].2@);
            }
            let entry_version = self.transaction_sets[i].1;
            if entry_version == *version && string_eq_str(
                &self.transaction_sets[i].0,
                transaction_type,
            ) {
                return Some(&self.transaction_sets[i].2);
            }
        }
        proof {
            assert(self@.take(0) =~= Seq::<TxSetEntryView>::empty());
        }
        None
    }

    /// The master definition registered under an element identifier.
    pub fn get_element_definition(&self, element_id: u32) -> (r: Option<&ElementMasterDefinition>)
        ensures
            match r {
                Some(d) => spec_dict_lookup(self.dict(), element_id) == Some(d@),
                None => spec_dict_lookup(self.dict(), element_id) is None,
            },
    {
        let mut i: usize = 0;
        proof {
            assert(self.dict().skip(0) =~= self.dict());
        }
        while i < self.element_dictionary.len()
            invariant
                i <= self.element_dictionary@.len(),
                spec_dict_lookup(self.dict(), element_id) == spec_dict_lookup(
                    self.dict().skip(i as int),
                    element_id,
                ),
            decreases self.element_dictionary@.len() - i,
        {
            proof {
                assert(self.dict().skip(i as int)[0] == self.dict()[i as int]);
                assert(self.dict().skip(i as int).drop_first() =~= self.dict().skip(i as int + 1));
            }
            if self.element_dictionary[i].0 == element_id {
                return Some(&self.element_dictionary[i].1);
            }
            i = i + 1;
        }
        proof {
            assert(self.dict().skip(self.dict().len() as int) =~= Seq::<
                (u32, ElementMasterDefinitionView),
            >::empty());
        }
        None
    }

    /// The transaction types registered for a version, in registration order.
    pub fn get_available_transaction_types(&self, version: &X12Version) -> (r: Vec<String>)
        ensures
            r.deep_view() == spec_types_for_version(self@, *version),
    {
        let mut r: Vec<String> = Vec::new();
        let mut i: usize = 0;
        while i < self.transaction_sets.len()
            invariant
                i <= self.transaction_sets@.len(),
                r.deep_view() =~= spec_types_for_version(self@.take(i as int), *version),
            decreases self.transaction_sets@.len() - i,
        {
            proof {
                assert(self@.take(i as int + 1).last() == self@[i as int]);
                assert(self@.take(i as int + 1).drop_last() =~= self@.take(i as int));
                assert(self@[i as int].transaction_type == self.transaction_sets@[i as int].0@);
            }
            let entry_version = self.transaction_sets[i].1;
            if entry_version == *version {
                let ghost prev = r.deep_view();
                r.push(self.transaction_sets[i].0.clone());
                proof {
                    assert(r.deep_view() =~= prev.push(self@[i as int].transaction_type));
                }
            }
            proof {
                assert(r.deep_view() =~= spec_types_for_version(self@.take(i as int + 1), *version));
            }
            i = i + 1;
        }
        proof {
            assert(self@.take(self@.len() as int) =~= self@);
        }
        r
    }

    /// The versions a transaction type is registered for, in registration
    /// order.
    pub fn get_supported_versions(&self, transaction_type: &str) -> (r: Vec<X12Version>)
        ensures
            r@ == spec_versions_for_type(self@, transaction_type@),
    {
        let mut r: Vec<X12Version> = Vec::new();
        let mut i: usize = 0;
        while i < self.transaction_sets.len()
            invariant
                i <= self.transaction_sets@.len(),
                r@ =~= spec_versions_for_type(self@.take(i as int), transaction_type@),
            decreases self.transaction_sets@.len() - i,
        {
            proof {
                assert(self@.take(i as int + 1).last() == self@[i as int]);
                assert(self@.take(i as int + 1).drop_last() =~= self@.take(i as int));
                assert(self@[i as int].transaction_type == self.transaction_sets@[i as int].0@);
            }
            if string_eq_str(&self.transaction_sets[i].0, transaction_type) {
                r.push(self.transaction_sets[i].1);
            }
            proof {
                assert(r@ =~= spec_versions_for_type(self@.take(i as int + 1), transaction_type@));
            }
            i = i + 1;
        }
        proof {
            assert(self@.take(self@.len() as int) =~= self@);
        }
        r
    }

    /// Check a transaction's segment identifier sequence against the layout
    /// registered for its type and version: unknown segments warn, usage
    /// counts and ordering dependencies are checked per position, hierarchy
    /// regressions warn, and every mandatory segment must be present.
    pub fn validate_transaction_structure(
        &self,
        transaction_type: &str,
        version: &X12Version,
        segments: &[String],
    ) -> (r: Result<Vec<ValidationResult>, EdiError>)
        requires
            segments@.len() <= usize::MAX,
        ensures
            match r {
                Ok(results) => spec_schema_lookup(self@, transaction_type@, *version)
                    matches Some(schema) && results.deep_view() == spec_structure_results(
                    schema.segments,
                    segments.deep_view(),
                ),
                Err(e) => spec_schema_lookup(self@, transaction_type@, *version) is None && (
                e matches EdiError::ValidationError(m) && m@ == "Unknown transaction type: "@
                    + transaction_type@),
            },
    {
        let ghost ids = segments.deep_view();
        let schema = match self.get_transaction_schema(transaction_type, version) {
            Some(s) => s,
            None => {
                return Err(
                    EdiError::ValidationError(
                        String::from_str("Unknown transaction type: ").concat(transaction_type),
                    ),
                );
            },
        };
        let ghost sv = schema@.segments;
        let mut results: Vec<ValidationResult> = Vec::new();
        let mut current_hierarchy: u32 = 0;
        let mut i: usize = 0;
        while i < segments.len()
            invariant
                i <= segments@.len(),
                segments@.len() <= usize::MAX,
                ids == segments.deep_view(),
                sv == schema@.segments,
                sv == schema.segments.deep_view(),
                current_hierarchy == hier_max(sv, ids, i as int),
                results.deep_view() =~= spec_scan_results(sv, ids, i as int),
            decreases segments@.len() - i,
        {
            let mut pos_results = validate_position(&schema.segments, segments, i, current_hierarchy);
            let ghost prev = results.deep_view();
            let ghost posv = pos_results.deep_view();
            results.append(&mut pos_results);
            proof {
                assert(results.deep_view() =~= prev + posv);
                assert(results.deep_view() =~= spec_scan_results(sv, ids, i as int + 1));
            }
            // Maintain the running hierarchy maximum.
            let id = &segments[i];
            proof {
                assert(id@ == ids[i as int]);
            }
            match find_schema_entry(&schema.segments, id) {
                Some(j) => {
                    proof {
                        assert(schema.segments.deep_view()[j as int] == schema.segments@[j as int]@);
                    }
                    if schema.segments[j].hierarchy_level > current_hierarchy {
                        current_hierarchy = schema.segments[j].hierarchy_level;
                    }
                },
                None => {},
            }
            i = i + 1;
        }
        proof {
            assert(results.deep_view() =~= spec_scan_results(sv, ids, ids.len() as int));
        }
        // Mandatory-presence checks, in layout order.
        let ghost scan = results.deep_view();
        let mut j: usize = 0;
        while j < schema.segments.len()
            invariant
                j <= schema.segments@.len(),
                ids == segments.deep_view(),
                sv == schema@.segments,
                sv == schema.segments.deep_view(),
                results.deep_view() =~= scan + spec_missing_results(sv, ids, j as int),
            decreases schema.segments@.len() - j,
        {
            let entry = &schema.segments[j];
            proof {
                assert(entry@ == sv[j as int]);
            }
            let mandatory: bool = match entry.requirement {
                SegmentRequirement::Mandatory => true,
                _ => false,
            };
            if mandatory {
                if !contains_in_prefix(segments, segments.len(), &entry.segment_id) {
                    proof {
                        assert(ids.take(ids.len() as int) =~= ids);
                    }
                    let msg = String::from_str("Missing mandatory segment ").concat(
                        entry.segment_id.as_str(),
                    );
                    let res = ValidationResult {
                        result_type: ValidationResultType::Error,
                        message: msg,
                        segment_position: None,
                        element_position: None,
                    };
                    let ghost resv = res@;
                    let ghost prevr = results.deep_view();
                    results.push(res);
                    proof {
                        assert(resv == res_error(msg_missing(sv[j as int].segment_id), None));
                        assert(results.deep_view() =~= prevr.push(resv));
                    }
                } else {
                    proof {
                        assert(ids.take(ids.len() as int) =~= ids);
                    }
                }
            }
            proof {
                assert(results.deep_view() =~= scan + spec_missing_results(sv, ids, j as int + 1));
            }
            j = j + 1;
        }
        proof {
            assert(results.deep_view() =~= spec_structure_results(sv, ids));
        }
        Ok(results)
    }
}

// ---------------------------------------------------------------------------
// Trading-partner customization overlay
// ---------------------------------------------------------------------------

impl Clone for SegmentRequirement {
    fn clone(&self) -> (r: Self)
        ensures
            r@ == self@,
    {
        match self {
            SegmentRequirement::Mandatory => SegmentRequirement::Mandatory,
            SegmentRequirement::Optional => SegmentRequirement::Optional,
            SegmentRequirement::Conditional(s) => SegmentRequirement::Conditional(s.clone()),
        }
    }
}

impl Clone for SegmentDependency {
    fn clone(&self) -> (r: Self)
        ensures
            r@ == self@,
    {
        SegmentDependency {
            depends_on: self.depends_on.clone(),
            dependency_type: self.dependency_type,
            condition: match &self.condition {
                Some(c) => Some(c.clone()),
                None => None,
            },
        }
    }
}

impl Clone for ValidationAction {
    fn clone(&self) -> (r: Self)
        ensures
            r@ == self@,
    {
        match self {
            ValidationAction::Error(s) => ValidationAction::Error(s.clone()),
            ValidationAction::Warning(s) => ValidationAction::Warning(s.clone()),
            ValidationAction::Info(s) => ValidationAction::Info(s.clone()),
            ValidationAction::Transform(s) => ValidationAction::Transform(s.clone()),
        }
    }
}

impl Clone for ContextRule {
    fn clone(&self) -> (r: Self)
        ensures
            r@ == self@,
    {
        ContextRule {
            rule_id: self.rule_id.clone(),
            description: self.description.clone(),
            condition: self.condition.clone(),
            action: self.action.clone(),
        }
    }
}

fn clone_deps(v: &Vec<SegmentDependency>) -> (r: Vec<SegmentDependency>)
    ensures
        r.deep_view() == v.deep_view(),
{
    let mut r: Vec<SegmentDependency> = Vec::new();
    let mut i: usize = 0;
    while i < v.len()
        invariant
            i <= v.len(),
            r.deep_view() =~= v.deep_view().take(i as int),
        decreases v.len() - i,
    {
        let ghost prev = r.deep_view();
        let e = v[i].clone();
        proof {
            assert(e@ == v.deep_view()[i as int]);
        }
        r.push(e);
        proof {
            assert(r.deep_view() =~= prev.push(v.deep_view()[i as int]));
            assert(r.deep_view() =~= v.deep_view().take(i as int + 1));
        }
        i = i + 1;
    }
    proof {
        assert(r.deep_view() =~= v.deep_view());
    }
    r
}

fn clone_rules(v: &Vec<ContextRule>) -> (r: Vec<ContextRule>)
    ensures
        r.deep_view() == v.deep_view(),
{
    let mut r: Vec<ContextRule> = Vec::new();
    let mut i: usize = 0;
    while i < v.len()
        invariant
            i <= v.len(),
            r.deep_view() =~= v.deep_view().take(i as int),
        decreases v.len() - i,
    {
        let ghost prev = r.deep_view();
        let e = v[i].clone();
        proof {
            assert(e@ == v.deep_view()[i as int]);
        }
        r.push(e);
        proof {
            assert(r.deep_view() =~= prev.push(v.deep_view()[i as int]));
            assert(r.deep_view() =~= v.deep_view().take(i as int + 1));
        }
        i = i + 1;
    }
    proof {
        assert(r.deep_view() =~= v.deep_view());
    }
    r
}

impl Clone for SegmentSchema {
    fn clone(&self) -> (r: Self)
        ensures
            r@ == self@,
    {
        let r = SegmentSchema {
            segment_id: self.segment_id.clone(),
            name: self.name.clone(),
            requirement: self.requirement.clone(),
            max_use: self.max_use,
            hierarchy_level: self.hierarchy_level,
            dependencies: clone_deps(&self.dependencies),
            context_rules: clone_rules(&self.context_rules),
        };
        proof {
            assert(r@ =~~= self@);
        }
        r
    }
}

/// One customization applied to one layout entry.  A segment-level
/// customization (no element position) with a matching identifier may flip
/// the requirement; anything else leaves the entry alone.
pub open spec fn spec_customize_segment(
    s: SegmentSchemaView,
    c: SchemaCustomizationView,
) -> SegmentSchemaView {
    if c.segment_id == s.segment_id && c.element_position is None {
        match c.customization_type {
            CustomizationTypeView::MakeMandatory => SegmentSchemaView {
                requirement: SegmentRequirementView::Mandatory,
                ..s
            },
            CustomizationTypeView::MakeOptional => SegmentSchemaView {
                requirement: SegmentRequirementView::Optional,
                ..s
            },
            _ => s,
        }
    } else {
        s
    }
}

/// Apply one customization to a layout entry.
pub fn customize_segment_schema(s: &SegmentSchema, c: &SchemaCustomization) -> (r: SegmentSchema)
    ensures
        r@ == spec_customize_segment(s@, c@),
{
    let mut r = s.clone();
    let applies = string_eq_str(&c.segment_id, s.segment_id.as_str()) && match c.element_position {
        None => true,
        Some(_) => false,
    };
    if applies {
        match &c.customization_type {
            CustomizationType::MakeMandatory => {
                r.requirement = SegmentRequirement::Mandatory;
            },
            CustomizationType::MakeOptional => {
                r.requirement = SegmentRequirement::Optional;
            },
            _ => {},
        }
    }
    proof {
        assert(r@ =~~= spec_customize_segment(s@, c@));
    }
    r
}

/// One customization applied across a layout.
pub open spec fn apply_customization_all(
    segs: Seq<SegmentSchemaView>,
    c: SchemaCustomizationView,
) -> Seq<SegmentSchemaView> {
    Seq::new(segs.len(), |i: int| spec_customize_segment(segs[i], c))
}

/// A customization list applied in order.
pub open spec fn apply_customizations(
    segs: Seq<SegmentSchemaView>,
    cs: Seq<SchemaCustomizationView>,
) -> Seq<SegmentSchemaView>
    decreases cs.len(),
{
    if cs.len() == 0 {
        segs
    } else {
        apply_customization_all(apply_customizations(segs, cs.drop_last()), cs.last())
    }
}

/// The agreements of one partner applied in registration order.
pub open spec fn apply_agreements(
    segs: Seq<SegmentSchemaView>,
    agreements: Seq<TradingPartnerAgreementView>,
    partner: Seq<char>,
) -> Seq<SegmentSchemaView>
    decreases agreements.len(),
{
    if agreements.len() == 0 {
        segs
    } else {
        let rest = apply_agreements(segs, agreements.drop_last(), partner);
        if agreements.last().partner_id == partner {
            apply_customizations(rest, agreements.last().customizations)
        } else {
            rest
        }
    }
}

/// The effective layout for one trading partner: the base layout with every
/// matching agreement's customizations applied as an overlay, in registration
/// order.  The base catalog is not touched.
pub fn effective_schema_segments(schema: &TransactionSetSchema, partner_id: &str) -> (r: Vec<
    SegmentSchema,
>)
    ensures
        r.deep_view() == apply_agreements(
            schema@.segments,
            schema@.trading_partner_agreements,
            partner_id@,
        ),
{
    let mut segs = clone_seg_schemas(&schema.segments);
    let mut a: usize = 0;
    while a < schema.trading_partner_agreements.len()
        invariant
            a <= schema.trading_partner_agreements@.len(),
            segs.deep_view() =~= apply_agreements(
                schema@.segments,
                schema@.trading_partner_agreements.take(a as int),
                partner_id@,
            ),
            schema@.trading_partner_agreements == schema.trading_partner_agreements.deep_view(),
        decreases schema.trading_partner_agreements@.len() - a,
    {
        let agreement = &schema.trading_partner_agreements[a];
        proof {
            assert(agreement@ == schema@.trading_partner_agreements[a as int]);
            assert(schema@.trading_partner_agreements.take(a as int + 1).drop_last()
                =~= schema@.trading_partner_agreements.take(a as int));
            assert(schema@.trading_partner_agreements.take(a as int + 1).last() == agreement@);
        }
        if str_eq(agreement.partner_id.as_str(), partner_id) {
            let mut c: usize = 0;
            let ghost base = segs.deep_view();
            while c < agreement.customizations.len()
                invariant
                    c <= agreement.customizations@.len(),
                    agreement@ == schema@.trading_partner_agreements[a as int],
                    segs.deep_view() =~= apply_customizations(
                        base,
                        agreement@.customizations.take(c as int),
                    ),
                decreases agreement.customizations@.len() - c,
            {
                let cust = &agreement.customizations[c];
                proof {
                    assert(cust@ == agreement@.customizations[c as int]);
                    assert(agreement@.customizations.take(c as int + 1).drop_last()
                        =~= agreement@.customizations.take(c as int));
                    assert(agreement@.customizations.take(c as int + 1).last() == cust@);
                }
                let ghost before = segs.deep_view();
                let mut updated: Vec<SegmentSchema> = Vec::new();
                let mut k: usize = 0;
                while k < segs.len()
                    invariant
                        k <= segs@.len(),
                        before == segs.deep_view(),
                        updated.deep_view() =~= apply_customization_all(before, cust@).take(
                            k as int,
                        ),
                        cust@ == agreement@.customizations[c as int],
                    decreases segs@.len() - k,
                {
                    let ghost prev = updated.deep_view();
                    let e = customize_segment_schema(&segs[k], cust);
                    proof {
                        assert(segs[k as int]@ == before[k as int]);
                    }
                    updated.push(e);
                    proof {
                        assert(updated.deep_view() =~= prev.push(spec_customize_segment(
                            before[k as int],
                            cust@,
                        )));
                        assert(updated.deep_view() =~= apply_customization_all(before, cust@).take(
                            k as int + 1,
                        ));
                    }
                    k = k + 1;
                }
                proof {
                    assert(updated.deep_view() =~= apply_customization_all(before, cust@));
                }
                segs = updated;
                c = c + 1;
            }
            proof {
                assert(agreement@.customizations.take(agreement@.customizations.len() as int)
                    =~= agreement@.customizations);
            }
        }
        a = a + 1;
    }
    proof {
        assert(schema@.trading_partner_agreements.take(
            schema@.trading_partner_agreements.len() as int,
        ) =~= schema@.trading_partner_agreements);
    }
    segs
}

fn clone_seg_schemas(v: &Vec<SegmentSchema>) -> (r: Vec<SegmentSchema>)
    ensures
        r.deep_view() == v.deep_view(),
{
    let mut r: Vec<SegmentSchema> = Vec::new();
    let mut i: usize = 0;
    while i < v.len()
        invariant
            i <= v.len(),
            r.deep_view() =~= v.deep_view().take(i as int),
        decreases v.len() - i,
    {
        let ghost prev = r.deep_view();
        let e = v[i].clone();
        proof {
            assert(e@ == v.deep_view()[i as int]);
        }
        r.push(e);
        proof {
            assert(r.deep_view() =~= prev.push(v.deep_view()[i as int]));
            assert(r.deep_view() =~= v.deep_view().take(i as int + 1));
        }
        i = i + 1;
    }
    proof {
        assert(r.deep_view() =~= v.deep_view());
    }
    r
}

/// Two customizations aim at the same (segment, element) target.
pub open spec fn spec_same_target(a: SchemaCustomizationView, b: SchemaCustomizationView) -> bool {
    a.segment_id == b.segment_id && a.element_position == b.element_position
}

fn same_target(a: &SchemaCustomization, b: &SchemaCustomization) -> (r: bool)
    ensures
        r == spec_same_target(a@, b@),
{
    str_eq(a.segment_id.as_str(), b.segment_id.as_str()) && match (
        &a.element_position,
        &b.element_position,
    ) {
        (None, None) => true,
        (Some(x), Some(y)) => *x == *y,
        _ => false,
    }
}

/// A customization list that targets some (segment, element) twice.
pub open spec fn conflict_within(cs: Seq<SchemaCustomizationView>) -> bool {
    exists|x: int, y: int|
        0 <= x < y < cs.len() && spec_same_target(#[trigger] cs[x], #[trigger] cs[y])
}

/// Two customization lists that share a target.
pub open spec fn conflict_between(
    a: Seq<SchemaCustomizationView>,
    b: Seq<SchemaCustomizationView>,
) -> bool {
    exists|x: int, y: int|
        0 <= x < a.len() && 0 <= y < b.len() && spec_same_target(#[trigger] a[x], #[trigger] b[y])
}

/// A new agreement conflicts when it targets one (segment, element) twice, or
/// shares a target with an agreement already registered for the same partner.
pub open spec fn spec_has_conflict(
    existing: Seq<TradingPartnerAgreementView>,
    agreement: TradingPartnerAgreementView,
) -> bool {
    conflict_within(agreement.customizations) || exists|e: int|
        0 <= e < existing.len() && (#[trigger] existing[e]).partner_id == agreement.partner_id
            && conflict_between(existing[e].customizations, agreement.customizations)
}

fn customizations_conflict_within(cs: &Vec<SchemaCustomization>) -> (r: bool)
    ensures
        r == conflict_within(cs.deep_view()),
{
    let mut x: usize = 0;
    while x < cs.len()
        invariant
            x <= cs@.len(),
            forall|a: int, b: int|
                0 <= a < b < cs@.len() && a < x ==> !spec_same_target(
                    #[trigger] cs.deep_view()[a],
                    #[trigger] cs.deep_view()[b],
                ),
        decreases cs@.len() - x,
    {
        let mut y: usize = x + 1;
        while y < cs.len()
            invariant
                x < y <= cs@.len() || (x + 1 == y && y >= cs@.len()),
                x < cs@.len(),
                forall|b: int|
                    x < b < y ==> !spec_same_target(
                        #[trigger] cs.deep_view()[x as int],
                        cs.deep_view()[b],
                    ),
            decreases cs@.len() - y,
        {
            proof {
                assert(cs.deep_view()[x as int] == cs@[x as int]@);
                assert(cs.deep_view()[y as int] == cs@[y as int]@);
            }
            if same_target(&cs[x], &cs[y]) {
                return true;
            }
            y = y + 1;
        }
        x = x + 1;
    }
    false
}

fn customizations_conflict_between(
    a: &Vec<SchemaCustomization>,
    b: &Vec<SchemaCustomization>,
) -> (r: bool)
    ensures
        r == conflict_between(a.deep_view(), b.deep_view()),
{
    let mut x: usize = 0;
    while x < a.len()
        invariant
            x <= a@.len(),
            forall|i: int, j: int|
                0 <= i < x && 0 <= j < b@.len() ==> !spec_same_target(
                    #[trigger] a.deep_view()[i],
                    #[trigger] b.deep_view()[j],
                ),
        decreases a@.len() - x,
    {
        let mut y: usize = 0;
        while y < b.len()
            invariant
                y <= b@.len(),
                x < a@.len(),
                forall|j: int|
                    0 <= j < y ==> !spec_same_target(
                        #[trigger] a.deep_view()[x as int],
                        b.deep_view()[j],
                    ),
        decreases b@.len() - y,
        {
            proof {
                assert(a.deep_view()[x as int] == a@[x as int]@);
                assert(b.deep_view()[y as int] == b@[y as int]@);
            }
            if same_target(&a[x], &b[y]) {
                return true;
            }
            y = y + 1;
        }
        x = x + 1;
    }
    false
}

fn agreement_conflicts(
    existing: &Vec<TradingPartnerAgreement>,
    agreement: &TradingPartnerAgreement,
) -> (r: bool)
    ensures
        r == spec_has_conflict(existing.deep_view(), agreement@),
{
    if customizations_conflict_within(&agreement.customizations) {
        return true;
    }
    let mut e: usize = 0;
    while e < existing.len()
        invariant
            e <= existing@.len(),
            !conflict_within(agreement@.customizations),
            forall|k: int|
                0 <= k < e ==> !((#[trigger] existing.deep_view()[k]).partner_id
                    == agreement@.partner_id && conflict_between(
                    existing.deep_view()[k].customizations,
                    agreement@.customizations,
                )),
        decreases existing@.len() - e,
    {
        proof {
            assert(existing.deep_view()[e as int] == existing@[e as int]@);
        }
        if str_eq(existing[e].partner_id.as_str(), agreement.partner_id.as_str()) {
            if customizations_conflict_between(
                &existing[e].customizations,
                &agreement.customizations,
            ) {
                return true;
            }
        }
        e = e + 1;
    }
    false
}

/// The index of the winning registration for a type and version.
pub open spec fn last_match_idx(
    entries: Seq<TxSetEntryView>,
    transaction_type: Seq<char>,
    version: X12Version,
) -> int
    decreases entries.len(),
{
    if entries.len() == 0 {
        0
    } else if entries.last().transaction_type == transaction_type && entries.last().version
        == version {
        entries.len() - 1
    } else {
        last_match_idx(entries.drop_last(), transaction_type, version)
    }
}

proof fn lemma_last_match_at(
    entries: Seq<TxSetEntryView>,
    transaction_type: Seq<char>,
    version: X12Version,
    i: int,
)
    requires
        0 <= i < entries.len(),
        entries[i].transaction_type == transaction_type && entries[i].version == version,
        forall|k: int|
            i < k < entries.len() ==> !((#[trigger] entries[k]).transaction_type
                == transaction_type && entries[k].version == version),
    ensures
        last_match_idx(entries, transaction_type, version) == i,
        spec_schema_lookup(entries, transaction_type, version) == Some(entries[i].schema),
    decreases entries.len(),
{
    if i < entries.len() - 1 {
        assert(entries.drop_last()[i] == entries[i]);
        assert forall|k: int|
            i < k < entries.drop_last().len() implies !((#[trigger] entries.drop_last()[k]).transaction_type
            == transaction_type && entries.drop_last()[k].version == version) by {
            assert(entries.drop_last()[k] == entries[k]);
        }
        lemma_last_match_at(entries.drop_last(), transaction_type, version, i);
    }
}

impl SchemaEngine {
    /// Register a trading partner agreement on the layout for a type and
    /// version.  An agreement whose customizations target one (segment,
    /// element) twice, or collide with an agreement already registered for
    /// the same partner, is a configuration error and is rejected here, at
    /// registration time.
    pub fn add_trading_partner_agreement(
        &mut self,
        transaction_type: &str,
        version: X12Version,
        agreement: TradingPartnerAgreement,
    ) -> (r: Result<(), EdiError>)
        ensures
            match r {
                Ok(_) => ({
                    let k = last_match_idx(old(self)@, transaction_type@, version);
                    &&& spec_schema_lookup(old(self)@, transaction_type@, version) is Some
                    &&& 0 <= k < old(self)@.len()
                    &&& !spec_has_conflict(
                        old(self)@[k].schema.trading_partner_agreements,
                        agreement@,
                    )
                    &&& final(self)@ == old(self)@.update(
                        k,
                        TxSetEntryView {
                            transaction_type: old(self)@[k].transaction_type,
                            version: old(self)@[k].version,
                            schema: TransactionSetSchemaView {
                                trading_partner_agreements: old(
                                    self,
                                )@[k].schema.trading_partner_agreements.push(agreement@),
                                ..old(self)@[k].schema
                            },
                        },
                    )
                }),
                Err(e) => final(self)@ == old(self)@ && ((spec_schema_lookup(
                    old(self)@,
                    transaction_type@,
                    version,
                ) is None && (e matches EdiError::ValidationError(m) && m@
                    == "Transaction schema not found: "@ + transaction_type@)) || (
                e matches EdiError::ValidationError(m) && m@
                    == "Conflicting trading partner customizations"@ && ({
                    let k = last_match_idx(old(self)@, transaction_type@, version);
                    spec_schema_lookup(old(self)@, transaction_type@, version) is Some
                        && spec_has_conflict(
                        old(self)@[k].schema.trading_partner_agreements,
                        agreement@,
                    )
                }))),
            },
    {
        let ghost entries = self@;
        // Locate the winning registration for this type and version.
        let mut i: usize = self.transaction_sets.len();
        let mut found: Option<usize> = None;
        proof {
            assert(self@.take(i as int) =~= self@);
        }
        while i > 0 && found.is_none()
            invariant
                i <= self.transaction_sets@.len(),
                entries == self@,
                match found {
                    Some(k) => k < self.transaction_sets@.len() && entries[k as int].transaction_type
                        == transaction_type@ && entries[k as int].version == version && (forall|
                        t: int,
                    |
                        k < t < entries.len() ==> !((#[trigger] entries[t]).transaction_type
                            == transaction_type@ && entries[t].version == version)),
                    None => forall|t: int|
                        i <= t < entries.len() ==> !((#[trigger] entries[t]).transaction_type
                            == transaction_type@ && entries[t].version == version),
                },
            decreases i,
        {
            i = i - 1;
            proof {
                assert(entries[i as int].transaction_type == self.transaction_sets@[i as int].0@);
            }
            let entry_version = self.transaction_sets[i].1;
            if entry_version == version && string_eq_str(
                &self.transaction_sets[i].0,
                transaction_type,
            ) {
                found = Some(i);
            }
        }
        let idx = match found {
            Some(k) => k,
            None => {
                proof {
                    lemma_no_match_no_lookup(entries, transaction_type@, version);
                }
                return Err(
                    EdiError::ValidationError(
                        String::from_str("Transaction schema not found: ").concat(transaction_type),
                    ),
                );
            },
        };
        proof {
            lemma_last_match_at(entries, transaction_type@, version, idx as int);
            assert(entries[idx as int].schema.trading_partner_agreements
                == self.transaction_sets@[idx as int].2@.trading_partner_agreements);
        }
        if agreement_conflicts(
            &self.transaction_sets[idx].2.trading_partner_agreements,
            &agreement,
        ) {
            return Err(
                EdiError::ValidationError(
                    String::from_str("Conflicting trading partner customizations"),
                ),
            );
        }
        let ghost agv = agreement@;
        let mut entry = self.transaction_sets.remove(idx);
        let ghost schema_before = entry.2@;
        entry.2.trading_partner_agreements.push(agreement);
        proof {
            assert(schema_before =~~= entries[idx as int].schema);
            assert(entry.2@ =~~= (TransactionSetSchemaView {
                trading_partner_agreements: entries[idx as int].schema.trading_partner_agreements.push(agv),
                ..entries[idx as int].schema
            }));
        }
        self.transaction_sets.insert(idx, entry);
        proof {
            assert(self@ =~~= entries.update(
                idx as int,
                TxSetEntryView {
                    transaction_type: entries[idx as int].transaction_type,
                    version: entries[idx as int].version,
                    schema: TransactionSetSchemaView {
                        trading_partner_agreements: entries[idx as int].schema.trading_partner_agreements.push(
                            agv,
                        ),
                        ..entries[idx as int].schema
                    },
                },
            ));
        }
        Ok(())
    }
}

proof fn lemma_no_match_no_lookup(
    entries: Seq<TxSetEntryView>,
    transaction_type: Seq<char>,
    version: X12Version,
)
    requires
        forall|t: int|
            0 <= t < entries.len() ==> !((#[trigger] entries[t]).transaction_type
                == transaction_type && entries[t].version == version),
    ensures
        spec_schema_lookup(entries, transaction_type, version) is None,
    decreases entries.len(),
{
    if entries.len() > 0 {
        lemma_no_match_no_lookup(entries.drop_last(), transaction_type, version);
    }
}

/// Codes of a list that a restriction keeps, in order.
pub open spec fn keep_codes(cs: Seq<Seq<char>>, allowed: Seq<Seq<char>>) -> Seq<Seq<char>>
    decreases cs.len(),
{
    if cs.len() == 0 {
        Seq::empty()
    } else {
        keep_codes(cs.drop_last(), allowed) + (if allowed.contains(cs.last()) {
            seq![cs.last()]
        } else {
            Seq::<Seq<char>>::empty()
        })
    }
}

/// One customization applied to an element definition: a requirement flip, an
/// extended or restricted code list, or new length bounds.
pub open spec fn spec_customize_element(
    e: crate::models::segment_definition::ElementDefinitionView,
    c: CustomizationTypeView,
) -> crate::models::segment_definition::ElementDefinitionView {
    match c {
        CustomizationTypeView::MakeMandatory => crate::models::segment_definition::ElementDefinitionView {
            requirement: crate::models::segment_definition::ElementRequirement::Mandatory,
            ..e
        },
        CustomizationTypeView::MakeOptional => crate::models::segment_definition::ElementDefinitionView {
            requirement: crate::models::segment_definition::ElementRequirement::Optional,
            ..e
        },
        CustomizationTypeView::ExtendValidCodes(added) => crate::models::segment_definition::ElementDefinitionView {
            valid_codes: Some(
                match e.valid_codes {
                    Some(cs) => cs + added,
                    None => added,
                },
            ),
            ..e
        },
        CustomizationTypeView::RestrictValidCodes(allowed) => crate::models::segment_definition::ElementDefinitionView {
            valid_codes: Some(
                match e.valid_codes {
                    Some(cs) => keep_codes(cs, allowed),
                    None => allowed,
                },
            ),
            ..e
        },
        CustomizationTypeView::ChangeLengthConstraints { min, max } => crate::models::segment_definition::ElementDefinitionView {
            min_length: match min {
                Some(m) => Some(m),
                None => e.min_length,
            },
            max_length: match max {
                Some(m) => Some(m),
                None => e.max_length,
            },
            ..e
        },
    }
}

/// Apply one customization to an element definition, leaving the original
/// untouched.
pub fn customize_element_definition(
    e: &crate::models::segment_definition::ElementDefinition,
    c: &CustomizationType,
) -> (r: crate::models::segment_definition::ElementDefinition)
    ensures
        r@ == spec_customize_element(e@, c@),
{
    let mut r = e.clone();
    match c {
        CustomizationType::MakeMandatory => {
            r.requirement = crate::models::segment_definition::ElementRequirement::Mandatory;
        },
        CustomizationType::MakeOptional => {
            r.requirement = crate::models::segment_definition::ElementRequirement::Optional;
        },
        CustomizationType::ExtendValidCodes(added) => {
            let mut codes = match &e.valid_codes {
                Some(cs) => crate::utils::clone_string_vec(cs),
                None => Vec::new(),
            };
            let ghost base = codes.deep_view();
            let mut k: usize = 0;
            while k < added.len()
                invariant
                    k <= added@.len(),
                    codes.deep_view() =~= base + added.deep_view().take(k as int),
                decreases added@.len() - k,
            {
                let ghost prev = codes.deep_view();
                let cde = added[k].clone();
                proof {
                    assert(cde@ == added.deep_view()[k as int]);
                }
                codes.push(cde);
                proof {
                    assert(codes.deep_view() =~= prev.push(added.deep_view()[k as int]));
                    assert(codes.deep_view() =~= base + added.deep_view().take(k as int + 1));
                }
                k = k + 1;
            }
            proof {
                assert(codes.deep_view() =~= base + added.deep_view());
                if e@.valid_codes is None {
                    assert(codes.deep_view() =~= added.deep_view());
                }
            }
            r.valid_codes = Some(codes);
        },
        CustomizationType::RestrictValidCodes(allowed) => {
            let mut codes: Vec<String> = Vec::new();
            match &e.valid_codes {
                Some(cs) => {
                    let mut k: usize = 0;
                    while k < cs.len()
                        invariant
                            k <= cs@.len(),
                            codes.deep_view() =~= keep_codes(
                                cs.deep_view().take(k as int),
                                allowed.deep_view(),
                            ),
                        decreases cs@.len() - k,
                    {
                        proof {
                            assert(cs.deep_view().take(k as int + 1).drop_last()
                                =~= cs.deep_view().take(k as int));
                            assert(cs.deep_view().take(k as int + 1).last()
                                == cs.deep_view()[k as int]);
                            assert(cs.deep_view()[k as int] == cs@[k as int]@);
                        }
                        let ghost prev = codes.deep_view();
                        if string_vec_contains(allowed, cs[k].as_str()) {
                            let cde = cs[k].clone();
                            codes.push(cde);
                            proof {
                                assert(codes.deep_view() =~= prev.push(cs.deep_view()[k as int]));
                            }
                        }
                        proof {
                            assert(codes.deep_view() =~= keep_codes(
                                cs.deep_view().take(k as int + 1),
                                allowed.deep_view(),
                            ));
                        }
                        k = k + 1;
                    }
                    proof {
                        assert(cs.deep_view().take(cs.deep_view().len() as int) =~= cs.deep_view());
                    }
                },
                None => {
                    codes = crate::utils::clone_string_vec(allowed);
                },
            }
            r.valid_codes = Some(codes);
        },
        CustomizationType::ChangeLengthConstraints { min, max } => {
            match min {
                Some(m) => {
                    r.min_length = Some(*m);
                },
                None => {},
            }
            match max {
                Some(m) => {
                    r.max_length = Some(*m);
                },
                None => {},
            }
        },
    }
    proof {
        assert(r@ =~~= spec_customize_element(e@, c@));
    }
    r
}

// ---------------------------------------------------------------------------
// Idempotence and overlay monotonicity
// ---------------------------------------------------------------------------

/// Idempotent validation: any two structure scans over the same layout and
/// the same segment list yield identical diagnostic lists, order included.
/// The premises are exactly what two runs of `validate_transaction_structure`
/// ensure.
pub proof fn lemma_validation_idempotent(
    schema: Seq<SegmentSchemaView>,
    ids: Seq<Seq<char>>,
    first_run: Seq<ValidationResultView>,
    second_run: Seq<ValidationResultView>,
)
    requires
        first_run == spec_structure_results(schema, ids),
        second_run == spec_structure_results(schema, ids),
    ensures
        first_run == second_run,
{
}

/// Two layouts that differ at most in their requirement markers.
pub open spec fn same_but_requirement(a: SegmentSchemaView, b: SegmentSchemaView) -> bool {
    &&& a.segment_id == b.segment_id
    &&& a.name == b.name
    &&& a.max_use == b.max_use
    &&& a.hierarchy_level == b.hierarchy_level
    &&& a.dependencies == b.dependencies
    &&& a.context_rules == b.context_rules
}

proof fn lemma_find_idx_same(
    schema: Seq<SegmentSchemaView>,
    schema2: Seq<SegmentSchemaView>,
    id: Seq<char>,
)
    requires
        schema.len() == schema2.len(),
        forall|k: int|
            0 <= k < schema.len() ==> (#[trigger] schema2[k]).segment_id == schema[k].segment_id,
    ensures
        find_schema_idx(schema2, id) == find_schema_idx(schema, id),
    decreases schema.len(),
{
    if schema.len() > 0 {
        assert(schema2[0].segment_id == schema[0].segment_id);
        if schema[0].segment_id != id {
            assert forall|k: int|
                0 <= k < schema.drop_first().len() implies (#[trigger] schema2.drop_first()[k]).segment_id
                == schema.drop_first()[k].segment_id by {
                assert(schema2[k + 1].segment_id == schema[k + 1].segment_id);
            }
            lemma_find_idx_same(schema.drop_first(), schema2.drop_first(), id);
        }
    }
}

proof fn lemma_hier_max_same(
    schema: Seq<SegmentSchemaView>,
    schema2: Seq<SegmentSchemaView>,
    ids: Seq<Seq<char>>,
    i: int,
)
    requires
        schema.len() == schema2.len(),
        forall|k: int|
            0 <= k < schema.len() ==> same_but_requirement(schema[k], #[trigger] schema2[k]),
    ensures
        hier_max(schema2, ids, i) == hier_max(schema, ids, i),
    decreases i,
{
    if i > 0 {
        lemma_hier_max_same(schema, schema2, ids, i - 1);
        lemma_find_idx_same(schema, schema2, ids[i - 1]);
        lemma_find_schema_idx_bounds(schema, ids[i - 1]);
    }
}

proof fn lemma_scan_same(
    schema: Seq<SegmentSchemaView>,
    schema2: Seq<SegmentSchemaView>,
    ids: Seq<Seq<char>>,
    n: int,
)
    requires
        schema.len() == schema2.len(),
        forall|k: int|
            0 <= k < schema.len() ==> same_but_requirement(schema[k], #[trigger] schema2[k]),
        n <= ids.len(),
    ensures
        spec_scan_results(schema2, ids, n) == spec_scan_results(schema, ids, n),
    decreases n,
{
    if n > 0 {
        lemma_scan_same(schema, schema2, ids, n - 1);
        lemma_find_idx_same(schema, schema2, ids[n - 1]);
        lemma_hier_max_same(schema, schema2, ids, n - 1);
        lemma_find_schema_idx_bounds(schema, ids[n - 1]);
        let j = find_schema_idx(schema, ids[n - 1]);
        if j < schema.len() {
            assert(same_but_requirement(schema[j], schema2[j]));
            assert(spec_position_results(schema2, ids, n - 1) == spec_position_results(
                schema,
                ids,
                n - 1,
            ));
        }
    }
}

proof fn lemma_missing_prefix_same(
    schema: Seq<SegmentSchemaView>,
    schema2: Seq<SegmentSchemaView>,
    ids: Seq<Seq<char>>,
    n: int,
)
    requires
        schema.len() == schema2.len(),
        forall|k: int| 0 <= k < n ==> schema[k] == #[trigger] schema2[k],
        n <= schema.len(),
    ensures
        spec_missing_results(schema2, ids, n) == spec_missing_results(schema, ids, n),
    decreases n,
{
    if n > 0 {
        lemma_missing_prefix_same(schema, schema2, ids, n - 1);
    }
}

proof fn lemma_missing_with_insert(
    schema: Seq<SegmentSchemaView>,
    schema2: Seq<SegmentSchemaView>,
    ids: Seq<Seq<char>>,
    j: int,
    n: int,
)
    requires
        0 <= j < n <= schema.len(),
        schema.len() == schema2.len(),
        forall|k: int| 0 <= k < schema.len() && k != j ==> schema[k] == #[trigger] schema2[k],
        !(schema[j].requirement is Mandatory),
        schema2[j].requirement is Mandatory,
        schema2[j].segment_id == schema[j].segment_id,
        !ids.contains(schema[j].segment_id),
    ensures
        spec_missing_results(schema2, ids, n) == spec_missing_results(schema, ids, j) + seq![
            res_error(msg_missing(schema[j].segment_id), None),
        ] + spec_missing_results(schema, ids, n).skip(
            spec_missing_results(schema, ids, j).len() as int,
        ),
    decreases n,
{
    let err = seq![res_error(msg_missing(schema[j].segment_id), None)];
    let base_j = spec_missing_results(schema, ids, j);
    if n == j + 1 {
        lemma_missing_prefix_same(schema, schema2, ids, j);
        assert(spec_missing_results(schema, ids, j + 1) == base_j);
        assert(spec_missing_results(schema, ids, n).skip(base_j.len() as int) =~= Seq::<
            ValidationResultView,
        >::empty());
        assert(spec_missing_results(schema2, ids, n) =~= base_j + err + spec_missing_results(
            schema,
            ids,
            n,
        ).skip(base_j.len() as int));
    } else {
        lemma_missing_with_insert(schema, schema2, ids, j, n - 1);
        assert(schema2[n - 1] == schema[n - 1]);
        let step = if schema[n - 1].requirement is Mandatory && !ids.contains(
            schema[n - 1].segment_id,
        ) {
            seq![res_error(msg_missing(schema[n - 1].segment_id), None)]
        } else {
            Seq::<ValidationResultView>::empty()
        };
        assert(spec_missing_results(schema, ids, n) == spec_missing_results(schema, ids, n - 1)
            + step);
        assert(spec_missing_results(schema2, ids, n) == spec_missing_results(schema2, ids, n - 1)
            + step);
        assert(spec_missing_results(schema, ids, n - 1).len() >= base_j.len()) by {
            lemma_missing_len_monotone(schema, ids, j, n - 1);
        }
        assert(spec_missing_results(schema, ids, n).skip(base_j.len() as int)
            =~= spec_missing_results(schema, ids, n - 1).skip(base_j.len() as int) + step);
        assert(spec_missing_results(schema2, ids, n) =~= base_j + err + spec_missing_results(
            schema,
            ids,
            n,
        ).skip(base_j.len() as int));
    }
}

proof fn lemma_missing_prefix(schema: Seq<SegmentSchemaView>, ids: Seq<Seq<char>>, m: int, n: int)
    requires
        0 <= m <= n,
    ensures
        spec_missing_results(schema, ids, n).take(
            spec_missing_results(schema, ids, m).len() as int,
        ) == spec_missing_results(schema, ids, m),
    decreases n,
{
    if n > m {
        lemma_missing_prefix(schema, ids, m, n - 1);
        lemma_missing_len_monotone(schema, ids, m, n - 1);
        assert(spec_missing_results(schema, ids, n).take(
            spec_missing_results(schema, ids, m).len() as int,
        ) =~= spec_missing_results(schema, ids, n - 1).take(
            spec_missing_results(schema, ids, m).len() as int,
        ));
    } else {
        assert(spec_missing_results(schema, ids, n).take(
            spec_missing_results(schema, ids, m).len() as int,
        ) =~= spec_missing_results(schema, ids, m));
    }
}

proof fn lemma_missing_len_monotone(
    schema: Seq<SegmentSchemaView>,
    ids: Seq<Seq<char>>,
    m: int,
    n: int,
)
    requires
        0 <= m <= n,
    ensures
        spec_missing_results(schema, ids, m).len() <= spec_missing_results(schema, ids, n).len(),
    decreases n,
{
    if n > m {
        lemma_missing_len_monotone(schema, ids, m, n - 1);
    }
}

/// Customization overlay monotonicity for `MakeMandatory`: making a
/// previously optional layout entry mandatory never removes a diagnostic.
/// When the segment is present in the transaction, the customized run is
/// identical to the base run; when it is absent, the customized run is the
/// base run with exactly one missing-mandatory Error inserted.
pub proof fn lemma_make_mandatory_monotone(
    schema: Seq<SegmentSchemaView>,
    j: int,
    ids: Seq<Seq<char>>,
)
    requires
        0 <= j < schema.len(),
        schema[j].requirement is Optional,
    ensures
        ({
            let schema2 = schema.update(
                j,
                SegmentSchemaView { requirement: SegmentRequirementView::Mandatory, ..schema[j] },
            );
            let base = spec_structure_results(schema, ids);
            let custom = spec_structure_results(schema2, ids);
            &&& ids.contains(schema[j].segment_id) ==> custom == base
            &&& !ids.contains(schema[j].segment_id) ==> {
                let p = spec_scan_results(schema, ids, ids.len() as int).len()
                    + spec_missing_results(schema, ids, j).len();
                custom == base.take(p as int) + seq![
                    res_error(msg_missing(schema[j].segment_id), None),
                ] + base.skip(p as int)
            }
        }),
{
    let schema2 = schema.update(
        j,
        SegmentSchemaView { requirement: SegmentRequirementView::Mandatory, ..schema[j] },
    );
    assert forall|k: int|
        0 <= k < schema.len() implies same_but_requirement(schema[k], #[trigger] schema2[k]) by {}
    lemma_scan_same(schema, schema2, ids, ids.len() as int);
    let scan = spec_scan_results(schema, ids, ids.len() as int);
    if ids.contains(schema[j].segment_id) {
        lemma_missing_contained_same(schema, schema2, ids, j, schema.len() as int);
        assert(spec_structure_results(schema2, ids) == spec_structure_results(schema, ids));
    } else {
        lemma_missing_with_insert(schema, schema2, ids, j, schema.len() as int);
        let base = spec_structure_results(schema, ids);
        let custom = spec_structure_results(schema2, ids);
        let base_j = spec_missing_results(schema, ids, j);
        let p = scan.len() + base_j.len();
        lemma_missing_len_monotone(schema, ids, j, schema.len() as int);
        lemma_missing_prefix(schema, ids, j, schema.len() as int);
        assert(base.take(p as int) =~= scan + base_j);
        assert(base.skip(p as int) =~= spec_missing_results(schema, ids, schema.len() as int).skip(
            base_j.len() as int,
        ));
        assert(custom =~= base.take(p as int) + seq![
            res_error(msg_missing(schema[j].segment_id), None),
        ] + base.skip(p as int));
    }
}

proof fn lemma_missing_contained_same(
    schema: Seq<SegmentSchemaView>,
    schema2: Seq<SegmentSchemaView>,
    ids: Seq<Seq<char>>,
    j: int,
    n: int,
)
    requires
        0 <= j < schema.len(),
        n <= schema.len(),
        schema.len() == schema2.len(),
        forall|k: int| 0 <= k < schema.len() && k != j ==> schema[k] == #[trigger] schema2[k],
        schema2[j].segment_id == schema[j].segment_id,
        ids.contains(schema[j].segment_id),
    ensures
        spec_missing_results(schema2, ids, n) == spec_missing_results(schema, ids, n),
    decreases n,
{
    if n > 0 {
        lemma_missing_contained_same(schema, schema2, ids, j, n - 1);
    }
}

impl Default for SchemaEngine {
    /// A freshly initialized engine.
    fn default() -> (r: Self)
        ensures
            engine_initialized(r@),
            dictionary_initialized(r.dict()),
    {
        SchemaEngine::new()
    }
}

} // verus!
