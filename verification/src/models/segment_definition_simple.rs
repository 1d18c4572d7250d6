use crate::utils::string_eq_str;
use vstd::prelude::*;

verus! {

/// How strongly an element is required within its segment.
#[derive(Debug, PartialEq, Eq, Structural)]
pub enum ElementRequirement {
    Mandatory,
    Optional,
    Conditional,
}

impl Clone for ElementRequirement {
    fn clone(&self) -> (r: Self)
        ensures
            r == *self,
    {
        match self {
            ElementRequirement::Mandatory => ElementRequirement::Mandatory,
            ElementRequirement::Optional => ElementRequirement::Optional,
            ElementRequirement::Conditional => ElementRequirement::Conditional,
        }
    }
}

/// The data type of an element value.
#[derive(Debug, PartialEq, Eq, Structural)]
pub enum ElementDataType {
    /// Alphanumeric string
    AN,
    /// Numeric string
    N,
    /// Real number (decimal)
    R,
    /// Identifier (code list)
    ID,
    /// Date (CCYYMMDD)
    DT,
    /// Time (HHMM or HHMMSS)
    TM,
    /// Binary data
    B,
}

impl Clone for ElementDataType {
    fn clone(&self) -> (r: Self)
        ensures
            r == *self,
    {
        match self {
            ElementDataType::AN => ElementDataType::AN,
            ElementDataType::N => ElementDataType::N,
            ElementDataType::R => ElementDataType::R,
            ElementDataType::ID => ElementDataType::ID,
            ElementDataType::DT => ElementDataType::DT,
            ElementDataType::TM => ElementDataType::TM,
            ElementDataType::B => ElementDataType::B,
        }
    }
}

/// One element's definition with its validation rules.
#[derive(Debug, PartialEq)]
pub struct ElementDefinition {
    pub element_id: u32,
    pub name: String,
    pub data_type: ElementDataType,
    pub min_length: Option<u32>,
    pub max_length: Option<u32>,
    pub requirement: ElementRequirement,
    pub description: String,
    pub valid_codes: Option<Vec<String>>,
}

/// The mathematical content of an `ElementDefinition`.
#[verifier::ext_equal]
pub struct ElementDefinitionView {
    pub element_id: u32,
    pub name: Seq<char>,
    pub data_type: ElementDataType,
    pub min_length: Option<u32>,
    pub max_length: Option<u32>,
    pub requirement: ElementRequirement,
    pub description: Seq<char>,
    pub valid_codes: Option<Seq<Seq<char>>>,
}

impl View for ElementDefinition {
    type V = ElementDefinitionView;

    open spec fn view(&self) -> ElementDefinitionView {
        ElementDefinitionView {
            element_id: self.element_id,
            name: self.name@,
            data_type: self.data_type,
            min_length: self.min_length,
            max_length: self.max_length,
            requirement: self.requirement,
            description: self.description@,
            valid_codes: match self.valid_codes {
                Some(ref v) => Some(v.deep_view()),
                None => None,
            },
        }
    }
}

impl DeepView for ElementDefinition {
    type V = ElementDefinitionView;

    open spec fn deep_view(&self) -> ElementDefinitionView {
        self.view()
    }
}

/// One segment's definition with its elements and usage bounds.
#[derive(Debug, PartialEq)]
pub struct SegmentDefinition {
    pub id: String,
    pub name: String,
    pub elements: Vec<ElementDefinition>,
    pub min_usage: u32,
    pub max_usage: Option<u32>,
    pub description: String,
}

/// The mathematical content of a `SegmentDefinition`.
#[verifier::ext_equal]
pub struct SegmentDefinitionView {
    pub id: Seq<char>,
    pub name: Seq<char>,
    pub elements: Seq<ElementDefinitionView>,
    pub min_usage: u32,
    pub max_usage: Option<u32>,
    pub description: Seq<char>,
}

impl View for SegmentDefinition {
    type V = SegmentDefinitionView;

    open spec fn view(&self) -> SegmentDefinitionView {
        SegmentDefinitionView {
            id: self.id@,
            name: self.name@,
            elements: self.elements.deep_view(),
            min_usage: self.min_usage,
            max_usage: self.max_usage,
            description: self.description@,
        }
    }
}

/// The protocol versions this registry distinguishes.
#[derive(Debug, Clone, Copy, PartialEq, Eq, Hash, Structural)]
pub enum X12Version {
    V4010,
    V5010,
    V8010,
}

/// An entry of the registry.
pub struct RegistryEntryView {
    pub version: X12Version,
    pub key: Seq<char>,
    pub definition: SegmentDefinitionView,
}

/// The definition registered under a key, the latest registration winning.
pub open spec fn spec_registry_lookup(
    entries: Seq<RegistryEntryView>,
    version: X12Version,
    key: Seq<char>,
) -> Option<SegmentDefinitionView>
    decreases entries.len(),
{
    if entries.len() == 0 {
        None
    } else if entries.last().version == version && entries.last().key == key {
        Some(entries.last().definition)
    } else {
        spec_registry_lookup(entries.drop_last(), version, key)
    }
}

/// Identifiers registered for one version, in registration order.
pub open spec fn spec_ids_for_version(entries: Seq<RegistryEntryView>, version: X12Version) -> Seq<
    Seq<char>,
>
    decreases entries.len(),
{
    if entries.len() == 0 {
        Seq::empty()
    } else {
        spec_ids_for_version(entries.drop_last(), version) + (if entries.last().version == version {
            seq![entries.last().key]
        } else {
            Seq::<Seq<char>>::empty()
        })
    }
}

/// A small version-indexed catalog holding the basic purchase-order
/// segments.
#[derive(Debug)]
pub struct SegmentRegistry {
    entries: Vec<(X12Version, SegmentDefinition)>,
}

impl View for SegmentRegistry {
    type V = Seq<RegistryEntryView>;

    closed spec fn view(&self) -> Seq<RegistryEntryView> {
        Seq::new(
            self.entries@.len(),
            |i: int|
                RegistryEntryView {
                    version: self.entries@[i].0,
                    key: self.entries@[i].1.id@,
                    definition: self.entries@[i].1@,
                },
        )
    }
}

/// Compact constructor for element definition views.
pub open spec fn elem_def(
    element_id: u32,
    name: Seq<char>,
    data_type: ElementDataType,
    min_length: u32,
    max_length: u32,
    requirement: ElementRequirement,
    description: Seq<char>,
    valid_codes: Option<Seq<Seq<char>>>,
) -> ElementDefinitionView {
    ElementDefinitionView {
        element_id,
        name,
        data_type,
        min_length: Some(min_length),
        max_length: Some(max_length),
        requirement,
        description,
        valid_codes,
    }
}

pub open spec fn beg_definition() -> SegmentDefinitionView {
    SegmentDefinitionView {
        id: "BEG"@,
        name: "Beginning Segment for Purchase Order"@,
        elements: seq![
            elem_def(
                353,
                "Transaction Set Purpose Code"@,
                ElementDataType::ID,
                2,
                2,
                ElementRequirement::Mandatory,
                "Code identifying purpose of transaction set"@,
                Some(seq!["00"@, "01"@, "04"@, "05"@]),
            ),
            elem_def(
                92,
                "Purchase Order Type Code"@,
                ElementDataType::ID,
                2,
                2,
                ElementRequirement::Mandatory,
                "Code specifying the type of Purchase Order"@,
                Some(seq!["NE"@, "RL"@, "SA"@]),
            ),
            elem_def(
                324,
                "Purchase Order Number"@,
                ElementDataType::AN,
                1,
                22,
                ElementRequirement::Mandatory,
                "Identifying number for Purchase Order"@,
                None,
            ),
            elem_def(
                328,
                "Release Number"@,
                ElementDataType::AN,
                1,
                30,
                ElementRequirement::Optional,
                "Number identifying a release against a Purchase Order"@,
                None,
            ),
            elem_def(
                373,
                "Date"@,
                ElementDataType::DT,
                8,
                8,
                ElementRequirement::Mandatory,
                "Date expressed as CCYYMMDD"@,
                None,
            ),
        ],
        min_usage: 1,
        max_usage: Some(1),
        description: "To indicate the beginning of the Purchase Order Transaction Set"@,
    }
}

pub open spec fn cur_definition() -> SegmentDefinitionView {
    SegmentDefinitionView {
        id: "CUR"@,
        name: "Currency"@,
        elements: seq![
            elem_def(
                98,
                "Entity Identifier Code"@,
                ElementDataType::ID,
                2,
                3,
                ElementRequirement::Mandatory,
                "Code identifying an organizational entity"@,
                Some(seq!["BY"@, "SE"@]),
            ),
            elem_def(
                100,
                "Currency Code"@,
                ElementDataType::ID,
                3,
                3,
                ElementRequirement::Mandatory,
                "Code for country currency"@,
                Some(seq!["USD"@, "CAD"@, "EUR"@]),
            ),
        ],
        min_usage: 1,
        max_usage: Some(1),
        description: "To specify the currency being used in the transaction"@,
    }
}

/// One definition registered for each of the three versions, in order.
pub open spec fn registered_thrice(d: SegmentDefinitionView) -> Seq<RegistryEntryView> {
    seq![
        RegistryEntryView { version: X12Version::V4010, key: d.id, definition: d },
        RegistryEntryView { version: X12Version::V5010, key: d.id, definition: d },
        RegistryEntryView { version: X12Version::V8010, key: d.id, definition: d },
    ]
}

/// The entries a fresh registry holds, in registration order.
pub open spec fn standard_entries() -> Seq<RegistryEntryView> {
    registered_thrice(beg_definition()) + registered_thrice(cur_definition())
}

fn clone_element_vec(v: &Vec<ElementDefinition>) -> (r: Vec<ElementDefinition>)
    ensures
        r.deep_view() == v.deep_view(),
{
    let mut r: Vec<ElementDefinition> = Vec::new();
    let mut i: usize = 0;
    while i < v.len()
        invariant
            i <= v.len(),
            r.deep_view() =~= v.deep_view().take(i as int),
        decreases v.len() - i,
    {
        let ghost prev = r.deep_view();
        let e = ElementDefinition {
            element_id: v[i].element_id,
            name: v[i].name.clone(),
            data_type: v[i].data_type.clone(),
            min_length: v[i].min_length,
            max_length: v[i].max_length,
            requirement: v[i].requirement.clone(),
            description: v[i].description.clone(),
            valid_codes: match &v[i].valid_codes {
                Some(codes) => Some(crate::utils::clone_string_vec(codes)),
                None => None,
            },
        };
        proof {
            assert(e@ =~~= v.deep_view()[i as int]);
        }
        r.push(e);
        proof {
            assert(r.deep_view() =~= prev.push(e@));
            assert(r.deep_view() =~= v.deep_view().take(i as int + 1));
        }
        i = i + 1;
    }
    proof {
        assert(r.deep_view() =~= v.deep_view());
    }
    r
}

fn code_list(codes: &[&str]) -> (r: Vec<String>)
    ensures
        r.deep_view() == Seq::new(codes@.len(), |i: int| codes@[i]@),
{
    let mut r: Vec<String> = Vec::new();
    let mut i: usize = 0;
    while i < codes.len()
        invariant
            i <= codes@.len(),
            r.deep_view() =~= Seq::new(codes@.len(), |k: int| codes@[k]@).take(i as int),
        decreases codes@.len() - i,
    {
        let ghost prev = r.deep_view();
        let c = String::from_str(codes[i]);
        r.push(c);
        proof {
            assert(r.deep_view() =~= prev.push(codes@[i as int]@));
            assert(r.deep_view() =~= Seq::new(codes@.len(), |k: int| codes@[k]@).take(i as int + 1));
        }
        i = i + 1;
    }
    proof {
        assert(r.deep_view() =~= Seq::new(codes@.len(), |k: int| codes@[k]@));
    }
    r
}

fn make_element(
    element_id: u32,
    name: &str,
    data_type: ElementDataType,
    min_length: u32,
    max_length: u32,
    requirement: ElementRequirement,
    description: &str,
    valid_codes: Option<Vec<String>>,
) -> (r: ElementDefinition)
    ensures
        r@ == elem_def(
            element_id,
            name@,
            data_type,
            min_length,
            max_length,
            requirement,
            description@,
            match valid_codes {
                Some(v) => Some(v.deep_view()),
                None => None,
            },
        ),
{
    ElementDefinition {
        element_id,
        name: String::from_str(name),
        data_type,
        min_length: Some(min_length),
        max_length: Some(max_length),
        requirement,
        description: String::from_str(description),
        valid_codes,
    }
}

impl SegmentRegistry {
    /// A registry preloaded with the basic purchase-order segments for all
    /// three versions.
    pub fn new() -> (r: Self)
        ensures
            r@ == standard_entries(),
    {
        let mut registry = SegmentRegistry { entries: Vec::new() };
        proof {
            assert(registry@ =~= Seq::<RegistryEntryView>::empty());
        }
        registry.register_standard_segments();
        proof {
            assert(registry@ =~= standard_entries());
        }
        registry
    }

    /// Record a definition for one version; it supersedes any earlier
    /// registration under the same version and identifier.
    pub fn register_segment(&mut self, version: X12Version, definition: SegmentDefinition)
        ensures
            final(self)@ == old(self)@.push(
                RegistryEntryView { version, key: definition@.id, definition: definition@ },
            ),
    {
        let ghost prev = self@;
        let ghost dv = definition@;
        self.entries.push((version, definition));
        proof {
            assert(self@ =~= prev.push(RegistryEntryView { version, key: dv.id, definition: dv }));
        }
    }

    /// The definition registered under a version and segment identifier.
    pub fn get_definition(&self, version: &X12Version, segment_id: &str) -> (r: Option<
        &SegmentDefinition,
    >)
        ensures
            match r {
                Some(d) => spec_registry_lookup(self@, *version, segment_id@) == Some(d@),
                None => spec_registry_lookup(self@, *version, segment_id@) is None,
            },
    {
        let mut i: usize = self.entries.len();
        proof {
            assert(self@.take(i as int) =~= self@);
        }
        while i > 0
            invariant
                i <= self.entries@.len(),
                spec_registry_lookup(self@, *version, segment_id@) == spec_registry_lookup(
                    self@.take(i as int),
                    *version,
                    segment_id@,
                ),
            decreases i,
        {
            i = i - 1;
            let entry_version = self.entries[i].0;
            proof {
                assert(self@.take(i as int + 1).last() == self@[i as int]);
                assert(self@.take(i as int + 1).drop_last() =~= self@.take(i as int));
                assert(self@[i as int].key == self.entries@[i as int].1.id@);
                assert(self@[i as int].definition == self.entries@[i as int].1@);
            }
            if entry_version == *version && string_eq_str(&self.entries[i].1.id, segment_id) {
                return Some(&self.entries[i].1);
            }
        }
        proof {
            assert(self@.take(0) =~= Seq::<RegistryEntryView>::empty());
        }
        None
    }

    /// The identifiers registered for one version, in registration order.
    pub fn get_registered_segments_for_version(&self, version: &X12Version) -> (r: Vec<String>)
        ensures
            r.deep_view() == spec_ids_for_version(self@, *version),
    {
        let mut r: Vec<String> = Vec::new();
        let mut i: usize = 0;
        while i < self.entries.len()
            invariant
                i <= self.entries@.len(),
                r.deep_view() =~= spec_ids_for_version(self@.take(i as int), *version),
            decreases self.entries@.len() - i,
        {
            proof {
                assert(self@.take(i as int + 1).last() == self@[i as int]);
                assert(self@.take(i as int + 1).drop_last() =~= self@.take(i as int));
                assert(self@[i as int].key == self.entries@[i as int].1.id@);
            }
            let entry_version = self.entries[i].0;
            if entry_version == *version {
                let ghost prev = r.deep_view();
                let id = self.entries[i].1.id.clone();
                r.push(id);
                proof {
                    assert(r.deep_view() =~= prev.push(self@[i as int].key));
                }
            }
            proof {
                assert(r.deep_view() =~= spec_ids_for_version(self@.take(i as int + 1), *version));
            }
            i = i + 1;
        }
        proof {
            assert(self@.take(self@.len() as int) =~= self@);
        }
        r
    }

    fn register_standard_segments(&mut self)
        ensures
            final(self)@ == old(self)@ + standard_entries(),
    {
        let ghost prev = self@;
        self.register_beg_segment();
        self.register_cur_segment();
        proof {
            assert(self@ =~= prev + standard_entries());
        }
    }

    fn register_for_all_versions(&mut self, definition: SegmentDefinition)
        ensures
            final(self)@ == old(self)@ + registered_thrice(definition@),
    {
        let ghost prev = self@;
        let ghost dv = definition@;
        let copy1 = SegmentDefinition {
            id: definition.id.clone(),
            name: definition.name.clone(),
            elements: clone_element_vec(&definition.elements),
            min_usage: definition.min_usage,
            max_usage: definition.max_usage,
            description: definition.description.clone(),
        };
        let copy2 = SegmentDefinition {
            id: definition.id.clone(),
            name: definition.name.clone(),
            elements: clone_element_vec(&definition.elements),
            min_usage: definition.min_usage,
            max_usage: definition.max_usage,
            description: definition.description.clone(),
        };
        proof {
            assert(copy1@ =~~= dv);
            assert(copy2@ =~~= dv);
        }
        self.register_segment(X12Version::V4010, copy1);
        self.register_segment(X12Version::V5010, copy2);
        self.register_segment(X12Version::V8010, definition);
        proof {
            assert(self@ =~= prev + registered_thrice(dv));
        }
    }

    fn register_beg_segment(&mut self)
        ensures
            final(self)@ == old(self)@ + registered_thrice(beg_definition()),
    {
        let definition = SegmentDefinition {
            id: String::from_str("BEG"),
            name: String::from_str("Beginning Segment for Purchase Order"),
            elements: vec![
                make_element(
                    353,
                    "Transaction Set Purpose Code",
                    ElementDataType::ID,
                    2,
                    2,
                    ElementRequirement::Mandatory,
                    "Code identifying purpose of transaction set",
                    Some(code_list(&["00", "01", "04", "05"])),
                ),
                make_element(
                    92,
                    "Purchase Order Type Code",
                    ElementDataType::ID,
                    2,
                    2,
                    ElementRequirement::Mandatory,
                    "Code specifying the type of Purchase Order",
                    Some(code_list(&["NE", "RL", "SA"])),
                ),
                make_element(
                    324,
                    "Purchase Order Number",
                    ElementDataType::AN,
                    1,
                    22,
                    ElementRequirement::Mandatory,
                    "Identifying number for Purchase Order",
                    None,
                ),
                make_element(
                    328,
                    "Release Number",
                    ElementDataType::AN,
                    1,
                    30,
                    ElementRequirement::Optional,
                    "Number identifying a release against a Purchase Order",
                    None,
                ),
                make_element(
                    373,
                    "Date",
                    ElementDataType::DT,
                    8,
                    8,
                    ElementRequirement::Mandatory,
                    "Date expressed as CCYYMMDD",
                    None,
                ),
            ],
            min_usage: 1,
            max_usage: Some(1),
            description: String::from_str(
                "To indicate the beginning of the Purchase Order Transaction Set",
            ),
        };
        proof {
            assert(definition@.elements =~~= beg_definition().elements);
            assert(definition@ =~~= beg_definition());
        }
        self.register_for_all_versions(definition);
    }

    fn register_cur_segment(&mut self)
        ensures
            final(self)@ == old(self)@ + registered_thrice(cur_definition()),
    {
        let definition = SegmentDefinition {
            id: String::from_str("CUR"),
            name: String::from_str("Currency"),
            elements: vec![
                make_element(
                    98,
                    "Entity Identifier Code",
                    ElementDataType::ID,
                    2,
                    3,
                    ElementRequirement::Mandatory,
                    "Code identifying an organizational entity",
                    Some(code_list(&["BY", "SE"])),
                ),
                make_element(
                    100,
                    "Currency Code",
                    ElementDataType::ID,
                    3,
                    3,
                    ElementRequirement::Mandatory,
                    "Code for country currency",
                    Some(code_list(&["USD", "CAD", "EUR"])),
                ),
            ],
            min_usage: 1,
            max_usage: Some(1),
            description: String::from_str("To specify the currency being used in the transaction"),
        };
        proof {
            assert(definition@.elements =~~= cur_definition().elements);
            assert(definition@ =~~= cur_definition());
        }
        self.register_for_all_versions(definition);
    }
}

impl Default for SegmentRegistry {
    /// A fresh registry with the basic catalog.
    fn default() -> (r: Self)
        ensures
            r@ == standard_entries(),
    {
        SegmentRegistry::new()
    }
}

} // verus!
