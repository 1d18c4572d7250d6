use crate::error::EdiError;
use crate::utils::{
    all_digits, is_decimal, spec_dec, str_all_digits, str_is_decimal, string_eq_str, u32_to_string,
    usize_to_string,
};
use vstd::prelude::*;

verus! {

/// How strongly an element is required within its segment.
#[derive(Debug, PartialEq, Eq, Structural)]
pub enum ElementRequirement {
    Mandatory,
    Optional,
    Conditional,
}

impl Clone for ElementRequirement {
    fn clone(&self) -> (r: Self)
        ensures
            r == *self,
    {
        match self {
            ElementRequirement::Mandatory => ElementRequirement::Mandatory,
            ElementRequirement::Optional => ElementRequirement::Optional,
            ElementRequirement::Conditional => ElementRequirement::Conditional,
        }
    }
}

/// The data type of an element value.
#[derive(Debug, PartialEq, Eq, Structural)]
pub enum ElementDataType {
    /// Alphanumeric string
    AN,
    /// Numeric string
    N,
    /// Real number (decimal)
    R,
    /// Identifier (code list)
    ID,
    /// Date (CCYYMMDD)
    DT,
    /// Time (HHMM or HHMMSS)
    TM,
    /// Binary data
    B,
}

impl Clone for ElementDataType {
    fn clone(&self) -> (r: Self)
        ensures
            r == *self,
    {
        match self {
            ElementDataType::AN => ElementDataType::AN,
            ElementDataType::N => ElementDataType::N,
            ElementDataType::R => ElementDataType::R,
            ElementDataType::ID => ElementDataType::ID,
            ElementDataType::DT => ElementDataType::DT,
            ElementDataType::TM => ElementDataType::TM,
            ElementDataType::B => ElementDataType::B,
        }
    }
}

/// One element's definition: its stable numeric identifier, name, data type,
/// length bounds, requirement, and optional code list.
#[derive(Debug, PartialEq)]
pub struct ElementDefinition {
    pub element_id: u32,
    pub name: String,
    pub data_type: ElementDataType,
    pub min_length: Option<u32>,
    pub max_length: Option<u32>,
    pub requirement: ElementRequirement,
    pub description: String,
    pub valid_codes: Option<Vec<String>>,
}

/// The mathematical content of an `ElementDefinition`.
#[verifier::ext_equal]
pub struct ElementDefinitionView {
    pub element_id: u32,
    pub name: Seq<char>,
    pub data_type: ElementDataType,
    pub min_length: Option<u32>,
    pub max_length: Option<u32>,
    pub requirement: ElementRequirement,
    pub description: Seq<char>,
    pub valid_codes: Option<Seq<Seq<char>>>,
}

impl View for ElementDefinition {
    type V = ElementDefinitionView;

    open spec fn view(&self) -> ElementDefinitionView {
        ElementDefinitionView {
            element_id: self.element_id,
            name: self.name@,
            data_type: self.data_type,
            min_length: self.min_length,
            max_length: self.max_length,
            requirement: self.requirement,
            description: self.description@,
            valid_codes: match self.valid_codes {
                Some(ref v) => Some(v.deep_view()),
                None => None,
            },
        }
    }
}

impl DeepView for ElementDefinition {
    type V = ElementDefinitionView;

    open spec fn deep_view(&self) -> ElementDefinitionView {
        self.view()
    }
}

impl Clone for ElementDefinition {
    fn clone(&self) -> (r: Self)
        ensures
            r@ == self@,
    {
        ElementDefinition {
            element_id: self.element_id,
            name: self.name.clone(),
            data_type: self.data_type.clone(),
            min_length: self.min_length,
            max_length: self.max_length,
            requirement: self.requirement.clone(),
            description: self.description.clone(),
            valid_codes: match &self.valid_codes {
                Some(v) => Some(crate::utils::clone_string_vec(v)),
                None => None,
            },
        }
    }
}

/// One segment's definition: its identifier, name, ordered element
/// definitions, and usage bounds.
#[derive(Debug, PartialEq)]
pub struct SegmentDefinition {
    pub id: String,
    pub name: String,
    pub elements: Vec<ElementDefinition>,
    pub min_usage: u32,
    pub max_usage: Option<u32>,
    pub description: String,
}

/// The mathematical content of a `SegmentDefinition`.
#[verifier::ext_equal]
pub struct SegmentDefinitionView {
    pub id: Seq<char>,
    pub name: Seq<char>,
    pub elements: Seq<ElementDefinitionView>,
    pub min_usage: u32,
    pub max_usage: Option<u32>,
    pub description: Seq<char>,
}

impl View for SegmentDefinition {
    type V = SegmentDefinitionView;

    open spec fn view(&self) -> SegmentDefinitionView {
        SegmentDefinitionView {
            id: self.id@,
            name: self.name@,
            elements: self.elements.deep_view(),
            min_usage: self.min_usage,
            max_usage: self.max_usage,
            description: self.description@,
        }
    }
}

impl DeepView for SegmentDefinition {
    type V = SegmentDefinitionView;

    open spec fn deep_view(&self) -> SegmentDefinitionView {
        self.view()
    }
}

/// The protocol versions the catalog distinguishes.
#[derive(Debug, Clone, Copy, PartialEq, Eq, Hash, Structural)]
pub enum X12Version {
    V4010,
    V5010,
    V8010,
}

/// An entry of the registry: a version, the segment identifier it is keyed
/// under, and the definition.
pub struct RegistryEntryView {
    pub version: X12Version,
    pub key: Seq<char>,
    pub definition: SegmentDefinitionView,
}

/// The definition registered under a key, the latest registration winning.
pub open spec fn spec_registry_lookup(
    entries: Seq<RegistryEntryView>,
    version: X12Version,
    key: Seq<char>,
) -> Option<SegmentDefinitionView>
    decreases entries.len(),
{
    if entries.len() == 0 {
        None
    } else if entries.last().version == version && entries.last().key == key {
        Some(entries.last().definition)
    } else {
        spec_registry_lookup(entries.drop_last(), version, key)
    }
}

/// Version-indexed catalog of segment definitions.  Registrations are kept in
/// order; a later registration under the same version and identifier
/// supersedes an earlier one.
#[derive(Debug)]
pub struct SegmentRegistry {
    entries: Vec<(X12Version, SegmentDefinition)>,
}

impl View for SegmentRegistry {
    type V = Seq<RegistryEntryView>;

    closed spec fn view(&self) -> Seq<RegistryEntryView> {
        Seq::new(
            self.entries@.len(),
            |i: int|
                RegistryEntryView {
                    version: self.entries@[i].0,
                    key: self.entries@[i].1.id@,
                    definition: self.entries@[i].1@,
                },
        )
    }
}

// ---------------------------------------------------------------------------
// The standard catalog
// ---------------------------------------------------------------------------

/// Compact constructor for element definition views with both length bounds.
pub open spec fn elem_def(
    element_id: u32,
    name: Seq<char>,
    data_type: ElementDataType,
    min_length: u32,
    max_length: u32,
    requirement: ElementRequirement,
    description: Seq<char>,
    valid_codes: Option<Seq<Seq<char>>>,
) -> ElementDefinitionView {
    ElementDefinitionView {
        element_id,
        name,
        data_type,
        min_length: Some(min_length),
        max_length: Some(max_length),
        requirement,
        description,
        valid_codes,
    }
}

pub open spec fn beg_definition() -> SegmentDefinitionView {
    SegmentDefinitionView {
        id: "BEG"@,
        name: "Beginning Segment for Purchase Order"@,
        elements: seq![
            elem_def(
                353,
                "Transaction Set Purpose Code"@,
                ElementDataType::ID,
                2,
                2,
                ElementRequirement::Mandatory,
                "Code identifying purpose of transaction set"@,
                Some(seq!["00"@, "01"@, "04"@, "05"@]),
            ),
            elem_def(
                92,
                "Purchase Order Type Code"@,
                ElementDataType::ID,
                2,
                2,
                ElementRequirement::Mandatory,
                "Code specifying the type of Purchase Order"@,
                Some(seq!["NE"@, "RL"@, "SA"@]),
            ),
            elem_def(
                324,
                "Purchase Order Number"@,
                ElementDataType::AN,
                1,
                22,
                ElementRequirement::Mandatory,
                "Identifying number for Purchase Order"@,
                None,
            ),
            elem_def(
                328,
                "Release Number"@,
                ElementDataType::AN,
                1,
                30,
                ElementRequirement::Optional,
                "Number identifying a release against a Purchase Order"@,
                None,
            ),
            elem_def(
                373,
                "Date"@,
                ElementDataType::DT,
                8,
                8,
                ElementRequirement::Mandatory,
                "Date expressed as CCYYMMDD"@,
                None,
            ),
        ],
        min_usage: 1,
        max_usage: Some(1),
        description: "To indicate the beginning of the Purchase Order Transaction Set"@,
    }
}

pub open spec fn cur_definition() -> SegmentDefinitionView {
    SegmentDefinitionView {
        id: "CUR"@,
        name: "Currency"@,
        elements: seq![
            elem_def(
                98,
                "Entity Identifier Code"@,
                ElementDataType::ID,
                2,
                3,
                ElementRequirement::Mandatory,
                "Code identifying an organizational entity"@,
                Some(seq!["BY"@, "SE"@, "PR"@, "PE"@]),
            ),
            elem_def(
                100,
                "Currency Code"@,
                ElementDataType::ID,
                3,
                3,
                ElementRequirement::Mandatory,
                "Code for country in whose currency the charges are specified"@,
                Some(seq!["USD"@, "CAD"@, "EUR"@, "GBP"@, "JPY"@]),
            ),
        ],
        min_usage: 0,
        max_usage: Some(1),
        description: "To specify the currency used in a transaction"@,
    }
}

pub open spec fn ref_definition() -> SegmentDefinitionView {
    SegmentDefinitionView {
        id: "REF"@,
        name: "Reference Identification"@,
        elements: seq![
            elem_def(
                128,
                "Reference Identification Qualifier"@,
                ElementDataType::ID,
                2,
                3,
                ElementRequirement::Mandatory,
                "Code qualifying the Reference Identification"@,
                Some(seq!["DP"@, "IA"@, "PD"@]),
            ),
            elem_def(
                127,
                "Reference Identification"@,
                ElementDataType::AN,
                1,
                50,
                ElementRequirement::Optional,
                "Reference information as defined for a particular Transaction Set"@,
                None,
            ),
            elem_def(
                352,
                "Description"@,
                ElementDataType::AN,
                1,
                80,
                ElementRequirement::Optional,
                "A free-form description to clarify the related data elements"@,
                None,
            ),
        ],
        min_usage: 1,
        max_usage: Some(12),
        description: "To specify identifying information"@,
    }
}

pub open spec fn po1_definition() -> SegmentDefinitionView {
    SegmentDefinitionView {
        id: "PO1"@,
        name: "Baseline Item Data"@,
        elements: seq![
            elem_def(
                350,
                "Assigned Identification"@,
                ElementDataType::AN,
                1,
                20,
                ElementRequirement::Optional,
                "Alphanumeric characters assigned for differentiation within a transaction set"@,
                None,
            ),
            elem_def(
                330,
                "Quantity Ordered"@,
                ElementDataType::R,
                1,
                15,
                ElementRequirement::Mandatory,
                "Quantity ordered"@,
                None,
            ),
        ],
        min_usage: 1,
        max_usage: Some(100000),
        description: "To specify basic and most frequently used line item data"@,
    }
}

pub open spec fn dtm_definition() -> SegmentDefinitionView {
    SegmentDefinitionView {
        id: "DTM"@,
        name: "Date/Time Reference"@,
        elements: seq![
            elem_def(
                374,
                "Date/Time Qualifier"@,
                ElementDataType::ID,
                3,
                3,
                ElementRequirement::Mandatory,
                "Code specifying type of date or time, or both date and time"@,
                Some(seq!["002"@, "010"@, "037"@, "038"@]),
            ),
            elem_def(
                373,
                "Date"@,
                ElementDataType::DT,
                8,
                8,
                ElementRequirement::Mandatory,
                "Date expressed as CCYYMMDD"@,
                None,
            ),
            elem_def(
                337,
                "Time"@,
                ElementDataType::TM,
                4,
                8,
                ElementRequirement::Optional,
                "Time expressed in 24-hour clock time"@,
                None,
            ),
        ],
        min_usage: 0,
        max_usage: None,
        description: "To specify pertinent dates and times"@,
    }
}

pub open spec fn n1_definition() -> SegmentDefinitionView {
    SegmentDefinitionView {
        id: "N1"@,
        name: "Name"@,
        elements: seq![
            elem_def(
                98,
                "Entity Identifier Code"@,
                ElementDataType::ID,
                2,
                3,
                ElementRequirement::Mandatory,
                "Code identifying an organizational entity"@,
                Some(seq!["BY"@, "ST"@, "VN"@, "SE"@]),
            ),
            elem_def(
                93,
                "Name"@,
                ElementDataType::AN,
                1,
                60,
                ElementRequirement::Optional,
                "Free-form name"@,
                None,
            ),
            elem_def(
                66,
                "Identification Code Qualifier"@,
                ElementDataType::ID,
                1,
                2,
                ElementRequirement::Optional,
                "Code designating the system of code structure used for Identification Code"@,
                Some(seq!["1"@, "9"@, "92"@]),
            ),
            elem_def(
                67,
                "Identification Code"@,
                ElementDataType::AN,
                2,
                80,
                ElementRequirement::Optional,
                "Code identifying a party or other code"@,
                None,
            ),
        ],
        min_usage: 0,
        max_usage: None,
        description: "To identify a party by type of organization, name, and code"@,
    }
}

pub open spec fn ctt_definition() -> SegmentDefinitionView {
    SegmentDefinitionView {
        id: "CTT"@,
        name: "Transaction Totals"@,
        elements: seq![
            elem_def(
                354,
                "Number of Line Items"@,
                ElementDataType::N,
                1,
                6,
                ElementRequirement::Mandatory,
                "Total number of line items in the transaction set"@,
                None,
            ),
            elem_def(
                347,
                "Hash Total"@,
                ElementDataType::R,
                1,
                10,
                ElementRequirement::Optional,
                "Sum of values of the specified data element"@,
                None,
            ),
        ],
        min_usage: 0,
        max_usage: Some(1),
        description: "To transmit a hash total for a specific element in the transaction set"@,
    }
}

/// One definition registered for each of the three versions, in order.
pub open spec fn registered_thrice(d: SegmentDefinitionView) -> Seq<RegistryEntryView> {
    seq![
        RegistryEntryView { version: X12Version::V4010, key: d.id, definition: d },
        RegistryEntryView { version: X12Version::V5010, key: d.id, definition: d },
        RegistryEntryView { version: X12Version::V8010, key: d.id, definition: d },
    ]
}

/// The entries a fresh registry holds, in registration order.
pub open spec fn standard_entries() -> Seq<RegistryEntryView> {
    registered_thrice(beg_definition()) + registered_thrice(cur_definition()) + registered_thrice(
        ref_definition(),
    ) + registered_thrice(po1_definition())
}

// ---------------------------------------------------------------------------
// Element-value validation
// ---------------------------------------------------------------------------

pub open spec fn msg_elem(e: ElementDefinitionView) -> Seq<char> {
    "Element "@ + spec_dec(e.element_id as nat) + " ("@ + e.name + ")"@
}

pub open spec fn msg_mandatory_empty(e: ElementDefinitionView, pos: int) -> Seq<char> {
    msg_elem(e) + " at position "@ + spec_dec((pos + 1) as nat) + " is mandatory but empty"@
}

pub open spec fn msg_too_short(e: ElementDefinitionView, value: Seq<char>, m: u32) -> Seq<char> {
    msg_elem(e) + " value '"@ + value + "' is too short (min: "@ + spec_dec(m as nat)
        + ", actual: "@ + spec_dec(value.len()) + ")"@
}

pub open spec fn msg_too_long(e: ElementDefinitionView, value: Seq<char>, m: u32) -> Seq<char> {
    msg_elem(e) + " value '"@ + value + "' is too long (max: "@ + spec_dec(m as nat)
        + ", actual: "@ + spec_dec(value.len()) + ")"@
}

pub open spec fn msg_not_valid_code(e: ElementDefinitionView, value: Seq<char>) -> Seq<char> {
    msg_elem(e) + " value '"@ + value + "' is not a valid code"@
}

pub open spec fn msg_bad_type(e: ElementDefinitionView, value: Seq<char>) -> Seq<char> {
    match e.data_type {
        ElementDataType::N => msg_elem(e) + " value '"@ + value + "' must be numeric"@,
        ElementDataType::R => msg_elem(e) + " value '"@ + value
            + "' must be a valid decimal number"@,
        ElementDataType::DT => msg_elem(e) + " value '"@ + value
            + "' must be a valid date in CCYYMMDD format"@,
        ElementDataType::TM => msg_elem(e) + " value '"@ + value
            + "' must be a valid time in HHMM, HHMMSS, HHMMSSD, or HHMMSSDD format"@,
        _ => Seq::empty(),
    }
}

/// Whether a value fits an element's data type.  Lengths count characters.
pub open spec fn value_fits_type(dt: ElementDataType, value: Seq<char>) -> bool {
    match dt {
        ElementDataType::N => all_digits(value),
        ElementDataType::R => is_decimal(value),
        ElementDataType::DT => value.len() == 8 && all_digits(value),
        ElementDataType::TM => (value.len() == 4 || value.len() == 6 || value.len() == 7
            || value.len() == 8) && all_digits(value),
        _ => true,
    }
}

fn clone_element_vec(v: &Vec<ElementDefinition>) -> (r: Vec<ElementDefinition>)
    ensures
        r.deep_view() == v.deep_view(),
{
    let mut r: Vec<ElementDefinition> = Vec::new();
    let mut i: usize = 0;
    while i < v.len()
        invariant
            i <= v.len(),
            r.deep_view() =~= v.deep_view().take(i as int),
        decreases v.len() - i,
    {
        let ghost prev = r.deep_view();
        let e = v[i].clone();
        proof {
            assert(e@ == v.deep_view()[i as int]);
        }
        r.push(e);
        proof {
            assert(r.deep_view() =~= prev.push(v.deep_view()[i as int]));
            assert(r.deep_view() =~= v.deep_view().take(i as int + 1));
        }
        i = i + 1;
    }
    proof {
        assert(r.deep_view() =~= v.deep_view());
    }
    r
}

impl Clone for SegmentDefinition {
    fn clone(&self) -> (r: Self)
        ensures
            r@ == self@,
    {
        SegmentDefinition {
            id: self.id.clone(),
            name: self.name.clone(),
            elements: clone_element_vec(&self.elements),
            min_usage: self.min_usage,
            max_usage: self.max_usage,
            description: self.description.clone(),
        }
    }
}

/// Build a string list from literals.
fn code_list(codes: &[&str]) -> (r: Vec<String>)
    ensures
        r.deep_view() == Seq::new(codes@.len(), |i: int| codes@[i]@),
{
    let mut r: Vec<String> = Vec::new();
    let mut i: usize = 0;
    while i < codes.len()
        invariant
            i <= codes@.len(),
            r.deep_view() =~= Seq::new(codes@.len(), |k: int| codes@[k]@).take(i as int),
        decreases codes@.len() - i,
    {
        let ghost prev = r.deep_view();
        let c = String::from_str(codes[i]);
        r.push(c);
        proof {
            assert(r.deep_view() =~= prev.push(codes@[i as int]@));
            assert(r.deep_view() =~= Seq::new(codes@.len(), |k: int| codes@[k]@).take(i as int + 1));
        }
        i = i + 1;
    }
    proof {
        assert(r.deep_view() =~= Seq::new(codes@.len(), |k: int| codes@[k]@));
    }
    r
}

/// Build one element definition with both length bounds set.
fn make_element(
    element_id: u32,
    name: &str,
    data_type: ElementDataType,
    min_length: u32,
    max_length: u32,
    requirement: ElementRequirement,
    description: &str,
    valid_codes: Option<Vec<String>>,
) -> (r: ElementDefinition)
    ensures
        r@ == elem_def(
            element_id,
            name@,
            data_type,
            min_length,
            max_length,
            requirement,
            description@,
            match valid_codes {
                Some(v) => Some(v.deep_view()),
                None => None,
            },
        ),
{
    ElementDefinition {
        element_id,
        name: String::from_str(name),
        data_type,
        min_length: Some(min_length),
        max_length: Some(max_length),
        requirement,
        description: String::from_str(description),
        valid_codes,
    }
}

impl SegmentRegistry {
    /// A registry preloaded with the standard purchase-order segments, each
    /// registered for the three supported versions.
    pub fn new() -> (r: Self)
        ensures
            r@ == standard_entries(),
    {
        let mut registry = SegmentRegistry { entries: Vec::new() };
        proof {
            assert(registry@ =~= Seq::<RegistryEntryView>::empty());
        }
        registry.register_standard_segments();
        proof {
            assert(registry@ =~= standard_entries());
        }
        registry
    }

    /// Record a definition for one version; it supersedes any earlier
    /// registration under the same version and identifier.
    pub fn register_segment(&mut self, version: X12Version, definition: SegmentDefinition)
        ensures
            final(self)@ == old(self)@.push(
                RegistryEntryView { version, key: definition@.id, definition: definition@ },
            ),
    {
        let ghost prev = self@;
        let ghost dv = definition@;
        self.entries.push((version, definition));
        proof {
            assert(self@ =~= prev.push(RegistryEntryView { version, key: dv.id, definition: dv }));
        }
    }

    /// The definition registered under a version and segment identifier.
    pub fn get_definition(&self, version: &X12Version, segment_id: &str) -> (r: Option<
        &SegmentDefinition,
    >)
        ensures
            match r {
                Some(d) => spec_registry_lookup(self@, *version, segment_id@) == Some(d@),
                None => spec_registry_lookup(self@, *version, segment_id@) is None,
            },
    {
        let mut i: usize = self.entries.len();
        proof {
            assert(self@.take(i as int) =~= self@);
        }
        while i > 0
            invariant
                i <= self.entries@.len(),
                spec_registry_lookup(self@, *version, segment_id@) == spec_registry_lookup(
                    self@.take(i as int),
                    *version,
                    segment_id@,
                ),
            decreases i,
        {
            i = i - 1;
            let entry_version = self.entries[i].0;
            proof {
                assert(self@.take(i as int + 1).last() == self@[i as int]);
                assert(self@.take(i as int + 1).drop_last() =~= self@.take(i as int));
                assert(self@[i as int].key == self.entries@[i as int].1.id@);
                assert(self@[i as int].definition == self.entries@[i as int].1@);
            }
            if entry_version == *version && string_eq_str(&self.entries[i].1.id, segment_id) {
                return Some(&self.entries[i].1);
            }
        }
        proof {
            assert(self@.take(0) =~= Seq::<RegistryEntryView>::empty());
        }
        None
    }

    /// The identifiers registered for one version, in registration order.
    pub fn get_registered_segments_for_version(&self, version: &X12Version) -> (r: Vec<String>)
        ensures
            r.deep_view() == spec_ids_for_version(self@, *version),
    {
        let mut r: Vec<String> = Vec::new();
        let mut i: usize = 0;
        while i < self.entries.len()
            invariant
                i <= self.entries@.len(),
                r.deep_view() =~= spec_ids_for_version(self@.take(i as int), *version),
            decreases self.entries@.len() - i,
        {
            proof {
                assert(self@.take(i as int + 1).last() == self@[i as int]);
                assert(self@.take(i as int + 1).drop_last() =~= self@.take(i as int));
                assert(self@[i as int].key == self.entries@[i as int].1.id@);
            }
            let entry_version = self.entries[i].0;
            if entry_version == *version {
                let ghost prev = r.deep_view();
                let id = self.entries[i].1.id.clone();
                r.push(id);
                proof {
                    assert(r.deep_view() =~= prev.push(self@[i as int].key));
                }
            }
            proof {
                assert(r.deep_view() =~= spec_ids_for_version(self@.take(i as int + 1), *version));
            }
            i = i + 1;
        }
        proof {
            assert(self@.take(self@.len() as int) =~= self@);
        }
        r
    }

    fn register_standard_segments(&mut self)
        ensures
            final(self)@ == old(self)@ + standard_entries(),
    {
        let ghost prev = self@;
        self.register_beg_segment();
        self.register_cur_segment();
        self.register_ref_segment();
        self.register_po1_segment();
        proof {
            assert(self@ =~= prev + standard_entries());
        }
    }

    fn register_for_all_versions(&mut self, definition: SegmentDefinition)
        ensures
            final(self)@ == old(self)@ + registered_thrice(definition@),
    {
        let ghost prev = self@;
        let ghost dv = definition@;
        let copy1 = definition.clone();
        let copy2 = definition.clone();
        self.register_segment(X12Version::V4010, copy1);
        self.register_segment(X12Version::V5010, copy2);
        self.register_segment(X12Version::V8010, definition);
        proof {
            assert(self@ =~= prev + registered_thrice(dv));
        }
    }

    fn register_beg_segment(&mut self)
        ensures
            final(self)@ == old(self)@ + registered_thrice(beg_definition()),
    {
        let definition = SegmentDefinition {
            id: String::from_str("BEG"),
            name: String::from_str("Beginning Segment for Purchase Order"),
            elements: vec![
                make_element(
                    353,
                    "Transaction Set Purpose Code",
                    ElementDataType::ID,
                    2,
                    2,
                    ElementRequirement::Mandatory,
                    "Code identifying purpose of transaction set",
                    Some(code_list(&["00", "01", "04", "05"])),
                ),
                make_element(
                    92,
                    "Purchase Order Type Code",
                    ElementDataType::ID,
                    2,
                    2,
                    ElementRequirement::Mandatory,
                    "Code specifying the type of Purchase Order",
                    Some(code_list(&["NE", "RL", "SA"])),
                ),
                make_element(
                    324,
                    "Purchase Order Number",
                    ElementDataType::AN,
                    1,
                    22,
                    ElementRequirement::Mandatory,
                    "Identifying number for Purchase Order",
                    None,
                ),
                make_element(
                    328,
                    "Release Number",
                    ElementDataType::AN,
                    1,
                    30,
                    ElementRequirement::Optional,
                    "Number identifying a release against a Purchase Order",
                    None,
                ),
                make_element(
                    373,
                    "Date",
                    ElementDataType::DT,
                    8,
                    8,
                    ElementRequirement::Mandatory,
                    "Date expressed as CCYYMMDD",
                    None,
                ),
            ],
            min_usage: 1,
            max_usage: Some(1),
            description: String::from_str(
                "To indicate the beginning of the Purchase Order Transaction Set",
            ),
        };
        proof {
            assert(definition@.elements =~~= beg_definition().elements);
            assert(definition@ =~~= beg_definition());
        }
        self.register_for_all_versions(definition);
    }

    fn register_cur_segment(&mut self)
        ensures
            final(self)@ == old(self)@ + registered_thrice(cur_definition()),
    {
        let definition = SegmentDefinition {
            id: String::from_str("CUR"),
            name: String::from_str("Currency"),
            elements: vec![
                make_element(
                    98,
                    "Entity Identifier Code",
                    ElementDataType::ID,
                    2,
                    3,
                    ElementRequirement::Mandatory,
                    "Code identifying an organizational entity",
                    Some(code_list(&["BY", "SE", "PR", "PE"])),
                ),
                make_element(
                    100,
                    "Currency Code",
                    ElementDataType::ID,
                    3,
                    3,
                    ElementRequirement::Mandatory,
                    "Code for country in whose currency the charges are specified",
                    Some(code_list(&["USD", "CAD", "EUR", "GBP", "JPY"])),
                ),
            ],
            min_usage: 0,
            max_usage: Some(1),
            description: String::from_str("To specify the currency used in a transaction"),
        };
        proof {
            assert(definition@.elements =~~= cur_definition().elements);
            assert(definition@ =~~= cur_definition());
        }
        self.register_for_all_versions(definition);
    }

    fn register_ref_segment(&mut self)
        ensures
            final(self)@ == old(self)@ + registered_thrice(ref_definition()),
    {
        let definition = SegmentDefinition {
            id: String::from_str("REF"),
            name: String::from_str("Reference Identification"),
            elements: vec![
                make_element(
                    128,
                    "Reference Identification Qualifier",
                    ElementDataType::ID,
                    2,
                    3,
                    ElementRequirement::Mandatory,
                    "Code qualifying the Reference Identification",
                    Some(code_list(&["DP", "IA", "PD"])),
                ),
                make_element(
                    127,
                    "Reference Identification",
                    ElementDataType::AN,
                    1,
                    50,
                    ElementRequirement::Optional,
                    "Reference information as defined for a particular Transaction Set",
                    None,
                ),
                make_element(
                    352,
                    "Description",
                    ElementDataType::AN,
                    1,
                    80,
                    ElementRequirement::Optional,
                    "A free-form description to clarify the related data elements",
                    None,
                ),
            ],
            min_usage: 1,
            max_usage: Some(12),
            description: String::from_str("To specify identifying information"),
        };
        proof {
            assert(definition@.elements =~~= ref_definition().elements);
            assert(definition@ =~~= ref_definition());
        }
        self.register_for_all_versions(definition);
    }

    fn register_po1_segment(&mut self)
        ensures
            final(self)@ == old(self)@ + registered_thrice(po1_definition()),
    {
        let definition = SegmentDefinition {
            id: String::from_str("PO1"),
            name: String::from_str("Baseline Item Data"),
            elements: vec![
                make_element(
                    350,
                    "Assigned Identification",
                    ElementDataType::AN,
                    1,
                    20,
                    ElementRequirement::Optional,
                    "Alphanumeric characters assigned for differentiation within a transaction set",
                    None,
                ),
                make_element(
                    330,
                    "Quantity Ordered",
                    ElementDataType::R,
                    1,
                    15,
                    ElementRequirement::Mandatory,
                    "Quantity ordered",
                    None,
                ),
            ],
            min_usage: 1,
            max_usage: Some(100000),
            description: String::from_str(
                "To specify basic and most frequently used line item data",
            ),
        };
        proof {
            assert(definition@.elements =~~= po1_definition().elements);
            assert(definition@ =~~= po1_definition());
        }
        self.register_for_all_versions(definition);
    }

    fn register_dtm_segment(&mut self)
        ensures
            final(self)@ == old(self)@ + registered_thrice(dtm_definition()),
    {
        let definition = SegmentDefinition {
            id: String::from_str("DTM"),
            name: String::from_str("Date/Time Reference"),
            elements: vec![
                make_element(
                    374,
                    "Date/Time Qualifier",
                    ElementDataType::ID,
                    3,
                    3,
                    ElementRequirement::Mandatory,
                    "Code specifying type of date or time, or both date and time",
                    Some(code_list(&["002", "010", "037", "038"])),
                ),
                make_element(
                    373,
                    "Date",
                    ElementDataType::DT,
                    8,
                    8,
                    ElementRequirement::Mandatory,
                    "Date expressed as CCYYMMDD",
                    None,
                ),
                make_element(
                    337,
                    "Time",
                    ElementDataType::TM,
                    4,
                    8,
                    ElementRequirement::Optional,
                    "Time expressed in 24-hour clock time",
                    None,
                ),
            ],
            min_usage: 0,
            max_usage: None,
            description: String::from_str("To specify pertinent dates and times"),
        };
        proof {
            assert(definition@.elements =~~= dtm_definition().elements);
            assert(definition@ =~~= dtm_definition());
        }
        self.register_for_all_versions(definition);
    }

    fn register_n1_segment(&mut self)
        ensures
            final(self)@ == old(self)@ + registered_thrice(n1_definition()),
    {
        let definition = SegmentDefinition {
            id: String::from_str("N1"),
            name: String::from_str("Name"),
            elements: vec![
                make_element(
                    98,
                    "Entity Identifier Code",
                    ElementDataType::ID,
                    2,
                    3,
                    ElementRequirement::Mandatory,
                    "Code identifying an organizational entity",
                    Some(code_list(&["BY", "ST", "VN", "SE"])),
                ),
                make_element(
                    93,
                    "Name",
                    ElementDataType::AN,
                    1,
                    60,
                    ElementRequirement::Optional,
                    "Free-form name",
                    None,
                ),
                make_element(
                    66,
                    "Identification Code Qualifier",
                    ElementDataType::ID,
                    1,
                    2,
                    ElementRequirement::Optional,
                    "Code designating the system of code structure used for Identification Code",
                    Some(code_list(&["1", "9", "92"])),
                ),
                make_element(
                    67,
                    "Identification Code",
                    ElementDataType::AN,
                    2,
                    80,
                    ElementRequirement::Optional,
                    "Code identifying a party or other code",
                    None,
                ),
            ],
            min_usage: 0,
            max_usage: None,
            description: String::from_str(
                "To identify a party by type of organization, name, and code",
            ),
        };
        proof {
            assert(definition@.elements =~~= n1_definition().elements);
            assert(definition@ =~~= n1_definition());
        }
        self.register_for_all_versions(definition);
    }

    fn register_ctt_segment(&mut self)
        ensures
            final(self)@ == old(self)@ + registered_thrice(ctt_definition()),
    {
        let definition = SegmentDefinition {
            id: String::from_str("CTT"),
            name: String::from_str("Transaction Totals"),
            elements: vec![
                make_element(
                    354,
                    "Number of Line Items",
                    ElementDataType::N,
                    1,
                    6,
                    ElementRequirement::Mandatory,
                    "Total number of line items in the transaction set",
                    None,
                ),
                make_element(
                    347,
                    "Hash Total",
                    ElementDataType::R,
                    1,
                    10,
                    ElementRequirement::Optional,
                    "Sum of values of the specified data element",
                    None,
                ),
            ],
            min_usage: 0,
            max_usage: Some(1),
            description: String::from_str(
                "To transmit a hash total for a specific element in the transaction set",
            ),
        };
        proof {
            assert(definition@.elements =~~= ctt_definition().elements);
            assert(definition@ =~~= ctt_definition());
        }
        self.register_for_all_versions(definition);
    }
}

/// Identifiers registered for one version, in registration order.
pub open spec fn spec_ids_for_version(entries: Seq<RegistryEntryView>, version: X12Version) -> Seq<
    Seq<char>,
>
    decreases entries.len(),
{
    if entries.len() == 0 {
        Seq::empty()
    } else {
        spec_ids_for_version(entries.drop_last(), version) + (if entries.last().version == version {
            seq![entries.last().key]
        } else {
            Seq::<Seq<char>>::empty()
        })
    }
}

/// The diagnostic `validate_element_value` produces, or `None` when the value
/// passes: a missing definition or position, then an empty-mandatory check,
/// then length bounds, the code list, and the data-type format, in that
/// order.
pub open spec fn spec_validate_element_value(
    entries: Seq<RegistryEntryView>,
    version: X12Version,
    segment_id: Seq<char>,
    pos: int,
    value: Seq<char>,
) -> Option<Seq<char>> {
    match spec_registry_lookup(entries, version, segment_id) {
        None => Some("Unknown segment: "@ + segment_id),
        Some(def) => {
            if !(0 <= pos < def.elements.len()) {
                Some(
                    "Element position "@ + spec_dec((pos + 1) as nat) + " not found in segment "@
                        + segment_id,
                )
            } else {
                let e = def.elements[pos];
                if e.requirement == ElementRequirement::Mandatory && value.len() == 0 {
                    Some(msg_mandatory_empty(e, pos))
                } else if value.len() == 0 {
                    None
                } else if (match e.min_length {
                    Some(m) => value.len() < m,
                    None => false,
                }) {
                    Some(msg_too_short(e, value, e.min_length->Some_0))
                } else if (match e.max_length {
                    Some(m) => value.len() > m,
                    None => false,
                }) {
                    Some(msg_too_long(e, value, e.max_length->Some_0))
                } else if (match e.valid_codes {
                    Some(codes) => !codes.contains(value),
                    None => false,
                }) {
                    Some(msg_not_valid_code(e, value))
                } else if !value_fits_type(e.data_type, value) {
                    Some(msg_bad_type(e, value))
                } else {
                    None
                }
            }
        },
    }
}

/// The (segment identifier, element definition) pairs of one definition whose
/// element identifier matches.
pub open spec fn spec_elems_of_def(
    key: Seq<char>,
    elements: Seq<ElementDefinitionView>,
    id: u32,
) -> Seq<(Seq<char>, ElementDefinitionView)>
    decreases elements.len(),
{
    if elements.len() == 0 {
        Seq::empty()
    } else {
        spec_elems_of_def(key, elements.drop_last(), id) + (if elements.last().element_id == id {
            seq![(key, elements.last())]
        } else {
            Seq::<(Seq<char>, ElementDefinitionView)>::empty()
        })
    }
}

/// All element definitions across the registry with a given element
/// identifier, in registration order.
pub open spec fn spec_elems_by_id(entries: Seq<RegistryEntryView>, id: u32) -> Seq<
    (Seq<char>, ElementDefinitionView),
>
    decreases entries.len(),
{
    if entries.len() == 0 {
        Seq::empty()
    } else {
        spec_elems_by_id(entries.drop_last(), id) + spec_elems_of_def(
            entries.last().key,
            entries.last().definition.elements,
            id,
        )
    }
}

pub open spec fn elem_pairs_match(
    rs: Seq<(String, &ElementDefinition)>,
    spec_rs: Seq<(Seq<char>, ElementDefinitionView)>,
) -> bool {
    rs.len() == spec_rs.len() && forall|k: int|
        0 <= k < rs.len() ==> (#[trigger] rs[k]).0@ == spec_rs[k].0 && rs[k].1@ == spec_rs[k].1
}

impl SegmentRegistry {
    /// Every element definition registered under the given element
    /// identifier, paired with its segment identifier, in registration order.
    pub fn get_element_definitions_by_id(&self, element_id: u32) -> (r: Vec<
        (String, &ElementDefinition),
    >)
        ensures
            elem_pairs_match(r@, spec_elems_by_id(self@, element_id)),
    {
        let mut r: Vec<(String, &ElementDefinition)> = Vec::new();
        let mut i: usize = 0;
        while i < self.entries.len()
            invariant
                i <= self.entries@.len(),
                elem_pairs_match(r@, spec_elems_by_id(self@.take(i as int), element_id)),
            decreases self.entries@.len() - i,
        {
            proof {
                assert(self@.take(i as int + 1).last() == self@[i as int]);
                assert(self@.take(i as int + 1).drop_last() =~= self@.take(i as int));
            }
            let definition = &self.entries[i].1;
            proof {
                assert(self@[i as int].key == definition.id@);
                assert(self@[i as int].definition == definition@);
            }
            let ghost base = spec_elems_by_id(self@.take(i as int), element_id);
            let mut j: usize = 0;
            while j < definition.elements.len()
                invariant
                    j <= definition.elements@.len(),
                    elem_pairs_match(
                        r@,
                        base + spec_elems_of_def(
                            definition.id@,
                            definition@.elements.take(j as int),
                            element_id,
                        ),
                    ),
                decreases definition.elements@.len() - j,
            {
                proof {
                    assert(definition@.elements.take(j as int + 1).last()
                        == definition@.elements[j as int]);
                    assert(definition@.elements.take(j as int + 1).drop_last()
                        =~= definition@.elements.take(j as int));
                    assert(definition@.elements[j as int] == definition.elements@[j as int]@);
                }
                if definition.elements[j].element_id == element_id {
                    r.push((definition.id.clone(), &definition.elements[j]));
                }
                j = j + 1;
            }
            proof {
                assert(definition@.elements.take(definition@.elements.len() as int)
                    =~= definition@.elements);
            }
            i = i + 1;
        }
        proof {
            assert(self@.take(self@.len() as int) =~= self@);
        }
        r
    }

    /// Check one element value against its registered definition.  The
    /// position is zero-based; lengths count characters.
    pub fn validate_element_value(
        &self,
        version: &X12Version,
        segment_id: &str,
        element_position: usize,
        value: &str,
    ) -> (r: Result<(), EdiError>)
        requires
            element_position < usize::MAX,
        ensures
            match r {
                Ok(_) => spec_validate_element_value(
                    self@,
                    *version,
                    segment_id@,
                    element_position as int,
                    value@,
                ) is None,
                Err(e) => e matches EdiError::ValidationError(m) && spec_validate_element_value(
                    self@,
                    *version,
                    segment_id@,
                    element_position as int,
                    value@,
                ) == Some(m@),
            },
    {
        let definition = match self.get_definition(version, segment_id) {
            Some(d) => d,
            None => {
                return Err(
                    EdiError::ValidationError(
                        String::from_str("Unknown segment: ").concat(segment_id),
                    ),
                );
            },
        };
        if element_position >= definition.elements.len() {
            return Err(
                EdiError::ValidationError(
                    String::from_str("Element position ").concat(
                        usize_to_string(element_position + 1).as_str(),
                    ).concat(" not found in segment ").concat(segment_id),
                ),
            );
        }
        let element_def = &definition.elements[element_position];
        proof {
            assert(element_def@ == definition@.elements[element_position as int]);
        }
        let vlen = value.unicode_len();
        if element_def.requirement == ElementRequirement::Mandatory && vlen == 0 {
            return Err(
                EdiError::ValidationError(
                    elem_msg(element_def).concat(" at position ").concat(
                        usize_to_string(element_position + 1).as_str(),
                    ).concat(" is mandatory but empty"),
                ),
            );
        }
        if vlen == 0 {
            return Ok(());
        }
        match element_def.min_length {
            Some(m) => {
                if vlen < m as usize {
                    return Err(
                        EdiError::ValidationError(
                            elem_msg(element_def).concat(" value '").concat(value).concat(
                                "' is too short (min: ",
                            ).concat(u32_to_string(m).as_str()).concat(", actual: ").concat(
                                usize_to_string(vlen).as_str(),
                            ).concat(")"),
                        ),
                    );
                }
            },
            None => {},
        }
        match element_def.max_length {
            Some(m) => {
                if vlen > m as usize {
                    return Err(
                        EdiError::ValidationError(
                            elem_msg(element_def).concat(" value '").concat(value).concat(
                                "' is too long (max: ",
                            ).concat(u32_to_string(m).as_str()).concat(", actual: ").concat(
                                usize_to_string(vlen).as_str(),
                            ).concat(")"),
                        ),
                    );
                }
            },
            None => {},
        }
        match &element_def.valid_codes {
            Some(codes) => {
                if !crate::utils::string_vec_contains(codes, value) {
                    return Err(
                        EdiError::ValidationError(
                            elem_msg(element_def).concat(" value '").concat(value).concat(
                                "' is not a valid code",
                            ),
                        ),
                    );
                }
            },
            None => {},
        }
        if !check_value_fits_type(&element_def.data_type, value) {
            return Err(EdiError::ValidationError(bad_type_msg(element_def, value)));
        }
        Ok(())
    }
}

/// Whether a value fits a data type; mirrors `value_fits_type`.
pub fn check_value_fits_type(dt: &ElementDataType, value: &str) -> (r: bool)
    ensures
        r == value_fits_type(*dt, value@),
{
    let vlen = value.unicode_len();
    match dt {
        ElementDataType::N => str_all_digits(value),
        ElementDataType::R => str_is_decimal(value),
        ElementDataType::DT => vlen == 8 && str_all_digits(value),
        ElementDataType::TM => (vlen == 4 || vlen == 6 || vlen == 7 || vlen == 8)
            && str_all_digits(value),
        _ => true,
    }
}

/// The "Element NNN (name)" prefix of a diagnostic.
fn elem_msg(e: &ElementDefinition) -> (r: String)
    ensures
        r@ == msg_elem(e@),
{
    String::from_str("Element ").concat(u32_to_string(e.element_id).as_str()).concat(" (").concat(
        e.name.as_str(),
    ).concat(")")
}

/// The data-type diagnostic for a value that does not fit.
fn bad_type_msg(e: &ElementDefinition, value: &str) -> (r: String)
    ensures
        r@ == msg_bad_type(e@, value@),
{
    match e.data_type {
        ElementDataType::N => elem_msg(e).concat(" value '").concat(value).concat(
            "' must be numeric",
        ),
        ElementDataType::R => elem_msg(e).concat(" value '").concat(value).concat(
            "' must be a valid decimal number",
        ),
        ElementDataType::DT => elem_msg(e).concat(" value '").concat(value).concat(
            "' must be a valid date in CCYYMMDD format",
        ),
        ElementDataType::TM => elem_msg(e).concat(" value '").concat(value).concat(
            "' must be a valid time in HHMM, HHMMSS, HHMMSSD, or HHMMSSDD format",
        ),
        _ => String::new(),
    }
}

impl Default for SegmentRegistry {
    /// A fresh registry with the standard catalog.
    fn default() -> (r: Self)
        ensures
            r@ == standard_entries(),
    {
        SegmentRegistry::new()
    }
}

} // verus!

