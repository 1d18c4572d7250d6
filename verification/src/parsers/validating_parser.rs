use crate::error::EdiError;
use crate::models::segment::{Segment, SegmentView};
use crate::models::segment_definition::{
    spec_elems_of_def, spec_ids_for_version, spec_registry_lookup, standard_entries,
    ElementDefinition, ElementDefinitionView, RegistryEntryView, SegmentRegistry, X12Version,
};
use crate::models::validated_element::{
    spec_first_element_error, spec_validate_element, ValidatedElement, ValidatedElementView,
    ValidatedSegment,
};
use crate::utils::usize_to_string;
use vstd::prelude::*;

verus! {

/// Pairs a segment's element values with their registered definitions and
/// validates them.
pub struct ValidatingSegmentParser {
    registry: SegmentRegistry,
    version: X12Version,
}

/// The elements a definition pairs with a segment's values: one per defined
/// position, carrying the value at that position when the segment has one;
/// positions are one-based.
pub open spec fn spec_paired_elements(def: SegmentDefinitionViewAlias, seg: SegmentView) -> Seq<
    ValidatedElementView,
> {
    Seq::new(
        def.elements.len(),
        |k: int|
            ValidatedElementView {
                definition: def.elements[k],
                value: if k < seg.elements.len() {
                    Some(seg.elements[k])
                } else {
                    None
                },
                position: (k + 1) as usize,
            },
    )
}

pub type SegmentDefinitionViewAlias = crate::models::segment_definition::SegmentDefinitionView;

impl ValidatingSegmentParser {
    /// The registered definitions.
    pub closed spec fn reg(&self) -> Seq<RegistryEntryView> {
        self.registry@
    }

    /// The version validated against.
    pub closed spec fn ver(&self) -> X12Version {
        self.version
    }

    /// A parser over the standard catalog.
    pub fn new(version: X12Version) -> (r: Self)
        ensures
            r.reg() == standard_entries(),
            r.ver() == version,
    {
        ValidatingSegmentParser { registry: SegmentRegistry::new(), version }
    }

    /// Pair a segment's values with their definitions and validate each in
    /// order, failing on the first violated element rule.
    pub fn parse_and_validate(&self, segment: &Segment) -> (r: Result<ValidatedSegment, EdiError>)
        requires
            segment@.elements.len() < usize::MAX,
        ensures
            match r {
                Ok(vs) => spec_registry_lookup(self.reg(), self.ver(), segment@.id)
                    matches Some(def) && vs.segment_id@ == segment@.id
                    && vs.elements.deep_view() == spec_paired_elements(def, segment@)
                    && spec_first_element_error(
                    spec_paired_elements(def, segment@),
                    def.elements.len() as int,
                ) is None,
                Err(e) => (spec_registry_lookup(self.reg(), self.ver(), segment@.id) is None && (
                e matches EdiError::ValidationError(m) && m@ == "Unknown segment '"@ + segment@.id
                    + "'"@)) || (spec_registry_lookup(self.reg(), self.ver(), segment@.id)
                    matches Some(def) && e matches EdiError::ValidationError(m)
                    && spec_first_element_error(
                    spec_paired_elements(def, segment@),
                    def.elements.len() as int,
                ) == Some(m@)),
            },
    {
        let definition = match self.registry.get_definition(&self.version, segment.id.as_str()) {
            Some(d) => d,
            None => {
                return Err(
                    EdiError::ValidationError(
                        String::from_str("Unknown segment '").concat(segment.id.as_str()).concat(
                            "'",
                        ),
                    ),
                );
            },
        };
        let ghost defv = definition@;
        let mut validated_segment = ValidatedSegment::new(segment.id.clone());
        let mut pos: usize = 0;
        while pos < definition.elements.len()
            invariant
                pos <= definition.elements@.len(),
                defv == definition@,
                segment@.elements.len() < usize::MAX,
                validated_segment.segment_id@ == segment@.id,
                validated_segment.elements.deep_view() =~= spec_paired_elements(
                    defv,
                    segment@,
                ).take(pos as int),
            decreases definition.elements@.len() - pos,
        {
            let element_def = definition.elements[pos].clone();
            proof {
                assert(element_def@ == defv.elements[pos as int]);
            }
            let value: Option<String> = if pos < segment.elements.len() {
                proof {
                    assert(segment@.elements[pos as int] == segment.elements@[pos as int]@);
                }
                Some(segment.elements[pos].clone())
            } else {
                None
            };
            let velem = ValidatedElement::new(element_def, value, pos + 1);
            let ghost vv = velem@;
            validated_segment.add_element(velem);
            proof {
                assert(vv =~~= spec_paired_elements(defv, segment@)[pos as int]);
                assert(validated_segment.elements.deep_view() =~= spec_paired_elements(
                    defv,
                    segment@,
                ).take(pos as int + 1));
            }
            pos = pos + 1;
        }
        proof {
            assert(validated_segment.elements.deep_view() =~= spec_paired_elements(defv, segment@));
        }
        match validated_segment.validate() {
            Ok(_) => Ok(validated_segment),
            Err(e) => Err(e),
        }
    }

    /// Every identifier registered for this parser's version.
    pub fn get_available_segments(&self) -> (r: Vec<String>)
        ensures
            r.deep_view() == spec_ids_for_version(self.reg(), self.ver()),
    {
        self.registry.get_registered_segments_for_version(&self.version)
    }

    /// Element definitions carrying an element identifier, paired with the
    /// segment identifier they sit in; each pair comes from the winning
    /// registration for its segment under this parser's version.
    pub fn get_element_definition_by_id(&self, element_id: u32) -> (r: Vec<
        (String, &ElementDefinition),
    >)
        ensures
            forall|k: int|
                0 <= k < r@.len() ==> (#[trigger] r@[k]).1@.element_id == element_id && (
                spec_registry_lookup(self.reg(), self.ver(), r@[k].0@) matches Some(def)
                    && def.elements.contains(r@[k].1@)),
    {
        let segment_ids = self.get_available_segments();
        let mut results: Vec<(String, &ElementDefinition)> = Vec::new();
        let mut i: usize = 0;
        while i < segment_ids.len()
            invariant
                i <= segment_ids@.len(),
                forall|k: int|
                    0 <= k < results@.len() ==> (#[trigger] results@[k]).1@.element_id
                        == element_id && (spec_registry_lookup(self.reg(), self.ver(), results@[k].0@)
                        matches Some(def) && def.elements.contains(results@[k].1@)),
            decreases segment_ids@.len() - i,
        {
            match self.registry.get_definition(&self.version, segment_ids[i].as_str()) {
                Some(definition) => {
                    let ghost defv = definition@;
                    let mut j: usize = 0;
                    while j < definition.elements.len()
                        invariant
                            j <= definition.elements@.len(),
                            defv == definition@,
                            spec_registry_lookup(
                                self.reg(),
                                self.ver(),
                                segment_ids@[i as int]@,
                            ) == Some(defv),
                            i < segment_ids@.len(),
                            forall|k: int|
                                0 <= k < results@.len() ==> (#[trigger] results@[k]).1@.element_id
                                    == element_id && (spec_registry_lookup(
                                    self.reg(),
                                    self.ver(),
                                    results@[k].0@,
                                ) matches Some(def) && def.elements.contains(results@[k].1@)),
                        decreases definition.elements@.len() - j,
                    {
                        proof {
                            assert(definition.elements@[j as int]@ == defv.elements[j as int]);
                        }
                        if definition.elements[j].element_id == element_id {
                            proof {
                                assert(defv.elements.contains(defv.elements[j as int]));
                            }
                            results.push((segment_ids[i].clone(), &definition.elements[j]));
                        }
                        j = j + 1;
                    }
                },
                None => {},
            }
            i = i + 1;
        }
        results
    }

    /// Check one value against the definition registered at a one-based
    /// position of a segment.
    pub fn validate_element_value(&self, segment_id: &str, position: usize, value: &str) -> (r:
        Result<(), EdiError>)
        requires
            position >= 1,
        ensures
            match r {
                Ok(_) => spec_registry_lookup(self.reg(), self.ver(), segment_id@)
                    matches Some(def) && position - 1 < def.elements.len()
                    && spec_validate_element(
                    def.elements[position - 1],
                    Some(value@),
                    position,
                ) is None,
                Err(e) => (spec_registry_lookup(self.reg(), self.ver(), segment_id@) is None && (
                e matches EdiError::ValidationError(m) && m@ == "Unknown segment '"@ + segment_id@
                    + "'"@)) || (spec_registry_lookup(self.reg(), self.ver(), segment_id@)
                    matches Some(def) && ((position - 1 >= def.elements.len() && (
                e matches EdiError::ValidationError(m) && m@ == "Position "@ + crate::utils::spec_dec(
                    position as nat,
                ) + " does not exist in segment "@ + segment_id@)) || (position - 1
                    < def.elements.len() && (e matches EdiError::ValidationError(m)
                    && spec_validate_element(def.elements[position - 1], Some(value@), position)
                    == Some(m@))))),
            },
    {
        let definition = match self.registry.get_definition(&self.version, segment_id) {
            Some(d) => d,
            None => {
                return Err(
                    EdiError::ValidationError(
                        String::from_str("Unknown segment '").concat(segment_id).concat("'"),
                    ),
                );
            },
        };
        if position - 1 >= definition.elements.len() {
            return Err(
                EdiError::ValidationError(
                    String::from_str("Position ").concat(usize_to_string(position).as_str()).concat(
                        " does not exist in segment ",
                    ).concat(segment_id),
                ),
            );
        }
        let element_def = definition.elements[position - 1].clone();
        proof {
            assert(element_def@ == definition@.elements[position - 1]);
        }
        let validated_element = ValidatedElement::new(
            element_def,
            Some(String::from_str(value)),
            position,
        );
        validated_element.validate()
    }
}

} // verus!
