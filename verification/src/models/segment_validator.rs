use crate::error::EdiError;
use crate::models::segment::{Segment, SegmentView};
use crate::models::segment_definition::{
    standard_entries, ElementDataType, ElementDefinition, ElementDefinitionView,
    ElementRequirement, RegistryEntryView, SegmentDefinition, SegmentDefinitionView,
    SegmentRegistry, spec_ids_for_version, spec_registry_lookup, X12Version,
};
use crate::utils::{
    all_digits, is_simple_decimal, spec_dec, str_all_digits, str_is_simple_decimal, string_eq_str,
    u32_to_string, usize_to_string,
};
use vstd::prelude::*;

verus! {

/// The outcome of checking one segment: validity plus the accumulated
/// diagnostics.
#[derive(Debug)]
pub struct SegmentValidationResult {
    pub is_valid: bool,
    pub errors: Vec<ValidationError>,
    pub warnings: Vec<ValidationWarning>,
}

/// One error, with the element position it concerns when known.
#[derive(Debug)]
pub struct ValidationError {
    pub element_position: Option<usize>,
    pub error_type: ValidationErrorType,
    pub message: String,
}

/// One warning.
#[derive(Debug)]
pub struct ValidationWarning {
    pub element_position: Option<usize>,
    pub message: String,
}

#[derive(Debug, Clone, Copy, PartialEq, Eq, Structural)]
pub enum ValidationErrorType {
    MissingRequiredElement,
    InvalidLength,
    InvalidDataType,
    InvalidFormat,
    TooManyElements,
    UnknownSegment,
}

/// The mathematical content of a `ValidationError`.
#[verifier::ext_equal]
pub struct ValidationErrorView {
    pub element_position: Option<usize>,
    pub error_type: ValidationErrorType,
    pub message: Seq<char>,
}

impl View for ValidationError {
    type V = ValidationErrorView;

    open spec fn view(&self) -> ValidationErrorView {
        ValidationErrorView {
            element_position: self.element_position,
            error_type: self.error_type,
            message: self.message@,
        }
    }
}

impl DeepView for ValidationError {
    type V = ValidationErrorView;

    open spec fn deep_view(&self) -> ValidationErrorView {
        self.view()
    }
}

/// The mathematical content of a `ValidationWarning`.
#[verifier::ext_equal]
pub struct ValidationWarningView {
    pub element_position: Option<usize>,
    pub message: Seq<char>,
}

impl View for ValidationWarning {
    type V = ValidationWarningView;

    open spec fn view(&self) -> ValidationWarningView {
        ValidationWarningView { element_position: self.element_position, message: self.message@ }
    }
}

impl DeepView for ValidationWarning {
    type V = ValidationWarningView;

    open spec fn deep_view(&self) -> ValidationWarningView {
        self.view()
    }
}

/// A printing ASCII character.
pub open spec fn is_printable_ascii(c: char) -> bool {
    0x20 <= c as u32 && c as u32 <= 0x7E
}

pub open spec fn all_printable_ascii(s: Seq<char>) -> bool {
    forall|i: int| 0 <= i < s.len() ==> is_printable_ascii(s[i])
}

fn str_all_printable_ascii(s: &str) -> (r: bool)
    ensures
        r == all_printable_ascii(s@),
{
    let n = s.unicode_len();
    let mut i: usize = 0;
    while i < n
        invariant
            n == s@.len(),
            i <= n,
            forall|k: int| 0 <= k < i ==> is_printable_ascii(s@[k]),
        decreases n - i,
    {
        let u = s.get_char(i) as u32;
        if !(0x20 <= u && u <= 0x7E) {
            return false;
        }
        i = i + 1;
    }
    true
}

pub open spec fn sv_err(
    position: Option<usize>,
    error_type: ValidationErrorType,
    message: Seq<char>,
) -> ValidationErrorView {
    ValidationErrorView { element_position: position, error_type, message }
}

pub open spec fn svmsg_missing(ed: ElementDefinitionView, p: int) -> Seq<char> {
    "Required element '"@ + ed.name + "' is missing or empty at position "@ + spec_dec(p as nat)
}

pub open spec fn svmsg_short(ed: ElementDefinitionView, p: int, m: u32, l: nat) -> Seq<char> {
    "Element '"@ + ed.name + "' at position "@ + spec_dec(p as nat)
        + " is too short. Expected min "@ + spec_dec(m as nat) + " characters, got "@ + spec_dec(l)
}

pub open spec fn svmsg_long(ed: ElementDefinitionView, p: int, m: u32, l: nat) -> Seq<char> {
    "Element '"@ + ed.name + "' at position "@ + spec_dec(p as nat)
        + " is too long. Expected max "@ + spec_dec(m as nat) + " characters, got "@ + spec_dec(l)
}

pub open spec fn svmsg_type(ed: ElementDefinitionView, p: int, v: Seq<char>, what: Seq<char>)
    -> Seq<char> {
    "Element '"@ + ed.name + "' at position "@ + spec_dec(p as nat) + what + ", got '"@ + v + "'"@
}

/// The errors one element definition produces against a segment: a mandatory
/// element that is absent or empty reports once; a present, non-empty value
/// is held to the length bounds and the data-type format, each failure
/// reported independently.
pub open spec fn sv_errors_at(ed: ElementDefinitionView, seg: SegmentView, k: int) -> Seq<
    ValidationErrorView,
> {
    let missing = k >= seg.elements.len() || seg.elements[k].len() == 0;
    if ed.requirement == ElementRequirement::Mandatory && missing {
        seq![
            sv_err(
                Some((k + 1) as usize),
                ValidationErrorType::MissingRequiredElement,
                svmsg_missing(ed, k + 1),
            ),
        ]
    } else if k < seg.elements.len() && seg.elements[k].len() > 0 {
        let v = seg.elements[k];
        (match ed.min_length {
            Some(m) => if v.len() < m {
                seq![
                    sv_err(
                        Some((k + 1) as usize),
                        ValidationErrorType::InvalidLength,
                        svmsg_short(ed, k + 1, m, v.len()),
                    ),
                ]
            } else {
                Seq::<ValidationErrorView>::empty()
            },
            None => Seq::<ValidationErrorView>::empty(),
        }) + (match ed.max_length {
            Some(m) => if v.len() > m {
                seq![
                    sv_err(
                        Some((k + 1) as usize),
                        ValidationErrorType::InvalidLength,
                        svmsg_long(ed, k + 1, m, v.len()),
                    ),
                ]
            } else {
                Seq::<ValidationErrorView>::empty()
            },
            None => Seq::<ValidationErrorView>::empty(),
        }) + (match ed.data_type {
            ElementDataType::N => if !all_digits(v) {
                seq![
                    sv_err(
                        Some((k + 1) as usize),
                        ValidationErrorType::InvalidDataType,
                        svmsg_type(ed, k + 1, v, " must be numeric"@),
                    ),
                ]
            } else {
                Seq::<ValidationErrorView>::empty()
            },
            ElementDataType::R => if !is_simple_decimal(v) {
                seq![
                    sv_err(
                        Some((k + 1) as usize),
                        ValidationErrorType::InvalidDataType,
                        svmsg_type(ed, k + 1, v, " must be a decimal number"@),
                    ),
                ]
            } else {
                Seq::<ValidationErrorView>::empty()
            },
            ElementDataType::DT => if !(v.len() == 8 && all_digits(v)) {
                seq![
                    sv_err(
                        Some((k + 1) as usize),
                        ValidationErrorType::InvalidFormat,
                        svmsg_type(ed, k + 1, v, " must be a valid date (CCYYMMDD)"@),
                    ),
                ]
            } else {
                Seq::<ValidationErrorView>::empty()
            },
            ElementDataType::TM => if !((v.len() == 4 || v.len() == 6 || v.len() == 8)
                && all_digits(v)) {
                seq![
                    sv_err(
                        Some((k + 1) as usize),
                        ValidationErrorType::InvalidFormat,
                        svmsg_type(
                            ed,
                            k + 1,
                            v,
                            " must be a valid time (HHMM, HHMMSS, or HHMMSSDD)"@,
                        ),
                    ),
                ]
            } else {
                Seq::<ValidationErrorView>::empty()
            },
            _ => Seq::<ValidationErrorView>::empty(),
        })
    } else {
        Seq::<ValidationErrorView>::empty()
    }
}

/// The warnings one element definition produces: a non-printing character in
/// an alphanumeric or identifier value.
pub open spec fn sv_warnings_at(ed: ElementDefinitionView, seg: SegmentView, k: int) -> Seq<
    ValidationWarningView,
> {
    let missing = k >= seg.elements.len() || seg.elements[k].len() == 0;
    if ed.requirement == ElementRequirement::Mandatory && missing {
        Seq::empty()
    } else if k < seg.elements.len() && seg.elements[k].len() > 0 {
        let v = seg.elements[k];
        match ed.data_type {
            ElementDataType::AN => if !all_printable_ascii(v) {
                seq![
                    ValidationWarningView {
                        element_position: Some((k + 1) as usize),
                        message: "Element '"@ + ed.name + "' at position "@ + spec_dec(
                            (k + 1) as nat,
                        ) + " contains non-printable characters"@,
                    },
                ]
            } else {
                Seq::<ValidationWarningView>::empty()
            },
            ElementDataType::ID => if !all_printable_ascii(v) {
                seq![
                    ValidationWarningView {
                        element_position: Some((k + 1) as usize),
                        message: "Element '"@ + ed.name + "' at position "@ + spec_dec(
                            (k + 1) as nat,
                        ) + " contains non-printable characters"@,
                    },
                ]
            } else {
                Seq::<ValidationWarningView>::empty()
            },
            _ => Seq::<ValidationWarningView>::empty(),
        }
    } else {
        Seq::empty()
    }
}

pub open spec fn sv_errors_upto(def: SegmentDefinitionView, seg: SegmentView, n: int) -> Seq<
    ValidationErrorView,
>
    decreases n,
{
    if n <= 0 {
        Seq::empty()
    } else {
        sv_errors_upto(def, seg, n - 1) + sv_errors_at(def.elements[n - 1], seg, n - 1)
    }
}

pub open spec fn sv_warnings_upto(def: SegmentDefinitionView, seg: SegmentView, n: int) -> Seq<
    ValidationWarningView,
>
    decreases n,
{
    if n <= 0 {
        Seq::empty()
    } else {
        sv_warnings_upto(def, seg, n - 1) + sv_warnings_at(def.elements[n - 1], seg, n - 1)
    }
}

/// Every error the validator accumulates for a known segment: a
/// too-many-elements check, then the per-element checks in order.
pub open spec fn sv_all_errors(def: SegmentDefinitionView, seg: SegmentView) -> Seq<
    ValidationErrorView,
> {
    (if seg.elements.len() > def.elements.len() {
        seq![
            sv_err(
                Some(seg.elements.len() as usize),
                ValidationErrorType::TooManyElements,
                "Segment "@ + seg.id + " has "@ + spec_dec(seg.elements.len()) + " elements but definition only allows "@
                    + spec_dec(def.elements.len()),
            ),
        ]
    } else {
        Seq::<ValidationErrorView>::empty()
    }) + sv_errors_upto(def, seg, def.elements.len() as int)
}

pub open spec fn sv_all_warnings(def: SegmentDefinitionView, seg: SegmentView) -> Seq<
    ValidationWarningView,
> {
    sv_warnings_upto(def, seg, def.elements.len() as int)
}

/// Checks one segment at a time against the registered definitions,
/// accumulating every violated rule rather than stopping at the first.
pub struct SegmentValidator {
    registry: SegmentRegistry,
    version: X12Version,
}

impl SegmentValidator {
    /// The registered definitions.
    pub closed spec fn reg(&self) -> Seq<RegistryEntryView> {
        self.registry@
    }

    /// The version validated against.
    pub closed spec fn ver(&self) -> X12Version {
        self.version
    }

    /// A validator over the standard catalog.
    pub fn new(version: X12Version) -> (r: Self)
        ensures
            r.reg() == standard_entries(),
            r.ver() == version,
    {
        SegmentValidator { registry: SegmentRegistry::new(), version }
    }

    /// A validator over a caller-supplied catalog.
    pub fn with_registry(registry: SegmentRegistry, version: X12Version) -> (r: Self)
        ensures
            r.reg() == registry@,
            r.ver() == version,
    {
        SegmentValidator { registry, version }
    }

    /// Check one segment against its registered definition, accumulating
    /// length, data-type and missing-element failures independently; an
    /// unregistered identifier yields a single unknown-segment error.
    pub fn validate_segment(&self, segment: &Segment) -> (r: SegmentValidationResult)
        ensures
            match spec_registry_lookup(self.reg(), self.ver(), segment@.id) {
                None => r.errors.deep_view() =~= seq![
                    sv_err(
                        None,
                        ValidationErrorType::UnknownSegment,
                        "Unknown segment type: "@ + segment@.id,
                    ),
                ] && r.warnings.deep_view() =~= Seq::<ValidationWarningView>::empty()
                    && !r.is_valid,
                Some(def) => r.errors.deep_view() == sv_all_errors(def, segment@)
                    && r.warnings.deep_view() == sv_all_warnings(def, segment@) && r.is_valid == (
                sv_all_errors(def, segment@).len() == 0),
            },
    {
        let mut errors: Vec<ValidationError> = Vec::new();
        let mut warnings: Vec<ValidationWarning> = Vec::new();
        let definition = match self.registry.get_definition(&self.version, segment.id.as_str()) {
            Some(def) => def,
            None => {
                errors.push(
                    ValidationError {
                        element_position: None,
                        error_type: ValidationErrorType::UnknownSegment,
                        message: String::from_str("Unknown segment type: ").concat(
                            segment.id.as_str(),
                        ),
                    },
                );
                return SegmentValidationResult { is_valid: false, errors, warnings };
            },
        };
        let ghost defv = definition@;
        let ghost segv = segment@;
        if segment.elements.len() > definition.elements.len() {
            let msg = String::from_str("Segment ").concat(segment.id.as_str()).concat(
                " has ",
            ).concat(usize_to_string(segment.elements.len()).as_str()).concat(
                " elements but definition only allows ",
            ).concat(usize_to_string(definition.elements.len()).as_str());
            errors.push(
                ValidationError {
                    element_position: Some(segment.elements.len()),
                    error_type: ValidationErrorType::TooManyElements,
                    message: msg,
                },
            );
        }
        let ghost head = errors.deep_view();
        let mut k: usize = 0;
        while k < definition.elements.len()
            invariant
                k <= definition.elements@.len(),
                defv == definition@,
                segv == segment@,
                errors.deep_view() =~= head + sv_errors_upto(defv, segv, k as int),
                warnings.deep_view() =~= sv_warnings_upto(defv, segv, k as int),
            decreases definition.elements@.len() - k,
        {
            let ed = &definition.elements[k];
            proof {
                assert(ed@ == defv.elements[k as int]);
            }
            let missing: bool = if k >= segment.elements.len() {
                true
            } else {
                proof {
                    assert(segment.elements@[k as int]@ == segv.elements[k as int]);
                }
                segment.elements[k].as_str().unicode_len() == 0
            };
            let required = ed.requirement == ElementRequirement::Mandatory;
            if required && missing {
                let msg = String::from_str("Required element '").concat(ed.name.as_str()).concat(
                    "' is missing or empty at position ",
                ).concat(usize_to_string(k + 1).as_str());
                let ghost preve = errors.deep_view();
                errors.push(
                    ValidationError {
                        element_position: Some(k + 1),
                        error_type: ValidationErrorType::MissingRequiredElement,
                        message: msg,
                    },
                );
                proof {
                    assert(errors.deep_view() =~= preve.push(sv_err(
                        Some((k + 1) as usize),
                        ValidationErrorType::MissingRequiredElement,
                        svmsg_missing(ed@, k as int + 1),
                    )));
                }
            } else if !missing {
                proof {
                    assert(segment.elements@[k as int]@ == segv.elements[k as int]);
                }
                self.validate_element(segment.elements[k].as_str(), ed, k + 1, &mut errors,
                    &mut warnings);
            }
            proof {
                assert(errors.deep_view() =~= head + sv_errors_upto(defv, segv, k as int + 1));
                assert(warnings.deep_view() =~= sv_warnings_upto(defv, segv, k as int + 1));
            }
            k = k + 1;
        }
        let is_valid = errors.is_empty();
        proof {
            assert(errors.deep_view() =~= sv_all_errors(defv, segv));
            assert(warnings.deep_view() =~= sv_all_warnings(defv, segv));
        }
        SegmentValidationResult { is_valid, errors, warnings }
    }

    /// Check one non-empty element value, accumulating a length failure, a
    /// data-type failure, and a printability warning independently.
    fn validate_element(
        &self,
        value: &str,
        definition: &ElementDefinition,
        position: usize,
        errors: &mut Vec<ValidationError>,
        warnings: &mut Vec<ValidationWarning>,
    )
        requires
            position >= 1,
            value@.len() > 0,
        ensures
            ({
                let ghost_seg = SegmentView {
                    id: Seq::empty(),
                    elements: Seq::new(position as nat, |i: int| value@),
                };
                final(errors).deep_view() == old(errors).deep_view() + sv_errors_at(
                    definition@,
                    ghost_seg,
                    position - 1,
                ) && final(warnings).deep_view() == old(warnings).deep_view() + sv_warnings_at(
                    definition@,
                    ghost_seg,
                    position - 1,
                )
            }),
    {
        let ghost gseg = SegmentView {
            id: Seq::<char>::empty(),
            elements: Seq::new(position as nat, |i: int| value@),
        };
        let ghost edv = definition@;
        let vlen = value.unicode_len();
        match definition.min_length {
            Some(m) => {
                if vlen < m as usize {
                    let msg = String::from_str("Element '").concat(
                        definition.name.as_str(),
                    ).concat("' at position ").concat(usize_to_string(position).as_str()).concat(
                        " is too short. Expected min ",
                    ).concat(u32_to_string(m).as_str()).concat(" characters, got ").concat(
                        usize_to_string(vlen).as_str(),
                    );
                    let ghost preve = errors.deep_view();
                    errors.push(
                        ValidationError {
                            element_position: Some(position),
                            error_type: ValidationErrorType::InvalidLength,
                            message: msg,
                        },
                    );
                    proof {
                        assert(errors.deep_view() =~= preve.push(sv_err(
                            Some(position),
                            ValidationErrorType::InvalidLength,
                            svmsg_short(edv, position as int, m, value@.len()),
                        )));
                    }
                }
            },
            None => {},
        }
        match definition.max_length {
            Some(m) => {
                if vlen > m as usize {
                    let msg = String::from_str("Element '").concat(
                        definition.name.as_str(),
                    ).concat("' at position ").concat(usize_to_string(position).as_str()).concat(
                        " is too long. Expected max ",
                    ).concat(u32_to_string(m).as_str()).concat(" characters, got ").concat(
                        usize_to_string(vlen).as_str(),
                    );
                    let ghost preve = errors.deep_view();
                    errors.push(
                        ValidationError {
                            element_position: Some(position),
                            error_type: ValidationErrorType::InvalidLength,
                            message: msg,
                        },
                    );
                    proof {
                        assert(errors.deep_view() =~= preve.push(sv_err(
                            Some(position),
                            ValidationErrorType::InvalidLength,
                            svmsg_long(edv, position as int, m, value@.len()),
                        )));
                    }
                }
            },
            None => {},
        }
        match definition.data_type {
            ElementDataType::N => {
                if !str_all_digits(value) {
                    let msg = String::from_str("Element '").concat(
                        definition.name.as_str(),
                    ).concat("' at position ").concat(usize_to_string(position).as_str()).concat(
                        " must be numeric",
                    ).concat(", got '",
                    ).concat(value).concat("'");
                    let ghost preve = errors.deep_view();
                    errors.push(
                        ValidationError {
                            element_position: Some(position),
                            error_type: ValidationErrorType::InvalidDataType,
                            message: msg,
                        },
                    );
                    proof {
                        assert(errors.deep_view() =~= preve.push(sv_err(
                            Some(position),
                            ValidationErrorType::InvalidDataType,
                            svmsg_type(edv, position as int, value@, " must be numeric"@),
                        )));
                    }
                }
            },
            ElementDataType::R => {
                if !str_is_simple_decimal(value) {
                    let msg = String::from_str("Element '").concat(
                        definition.name.as_str(),
                    ).concat("' at position ").concat(usize_to_string(position).as_str()).concat(
                        " must be a decimal number",
                    ).concat(", got '",
                    ).concat(value).concat("'");
                    let ghost preve = errors.deep_view();
                    errors.push(
                        ValidationError {
                            element_position: Some(position),
                            error_type: ValidationErrorType::InvalidDataType,
                            message: msg,
                        },
                    );
                    proof {
                        assert(errors.deep_view() =~= preve.push(sv_err(
                            Some(position),
                            ValidationErrorType::InvalidDataType,
                            svmsg_type(edv, position as int, value@, " must be a decimal number"@),
                        )));
                    }
                }
            },
            ElementDataType::DT => {
                if !(vlen == 8 && str_all_digits(value)) {
                    let msg = String::from_str("Element '").concat(
                        definition.name.as_str(),
                    ).concat("' at position ").concat(usize_to_string(position).as_str()).concat(
                        " must be a valid date (CCYYMMDD)",
                    ).concat(", got '",
                    ).concat(value).concat("'");
                    let ghost preve = errors.deep_view();
                    errors.push(
                        ValidationError {
                            element_position: Some(position),
                            error_type: ValidationErrorType::InvalidFormat,
                            message: msg,
                        },
                    );
                    proof {
                        assert(errors.deep_view() =~= preve.push(sv_err(
                            Some(position),
                            ValidationErrorType::InvalidFormat,
                            svmsg_type(
                                edv,
                                position as int,
                                value@,
                                " must be a valid date (CCYYMMDD)"@,
                            ),
                        )));
                    }
                }
            },
            ElementDataType::TM => {
                if !((vlen == 4 || vlen == 6 || vlen == 8) && str_all_digits(value)) {
                    let msg = String::from_str("Element '").concat(
                        definition.name.as_str(),
                    ).concat("' at position ").concat(usize_to_string(position).as_str()).concat(
                        " must be a valid time (HHMM, HHMMSS, or HHMMSSDD)",
                    ).concat(", got '",
                    ).concat(value).concat("'");
                    let ghost preve = errors.deep_view();
                    errors.push(
                        ValidationError {
                            element_position: Some(position),
                            error_type: ValidationErrorType::InvalidFormat,
                            message: msg,
                        },
                    );
                    proof {
                        assert(errors.deep_view() =~= preve.push(sv_err(
                            Some(position),
                            ValidationErrorType::InvalidFormat,
                            svmsg_type(
                                edv,
                                position as int,
                                value@,
                                " must be a valid time (HHMM, HHMMSS, or HHMMSSDD)"@,
                            ),
                        )));
                    }
                }
            },
            ElementDataType::AN => {
                if !str_all_printable_ascii(value) {
                    let msg = String::from_str("Element '").concat(
                        definition.name.as_str(),
                    ).concat("' at position ").concat(usize_to_string(position).as_str()).concat(
                        " contains non-printable characters",
                    );
                    let ghost prevw = warnings.deep_view();
                    warnings.push(
                        ValidationWarning { element_position: Some(position), message: msg },
                    );
                    proof {
                        assert(warnings.deep_view() =~= prevw.push(ValidationWarningView {
                            element_position: Some(position),
                            message: "Element '"@ + edv.name + "' at position "@ + spec_dec(
                                position as nat,
                            ) + " contains non-printable characters"@,
                        }));
                    }
                }
            },
            ElementDataType::ID => {
                if !str_all_printable_ascii(value) {
                    let msg = String::from_str("Element '").concat(
                        definition.name.as_str(),
                    ).concat("' at position ").concat(usize_to_string(position).as_str()).concat(
                        " contains non-printable characters",
                    );
                    let ghost prevw = warnings.deep_view();
                    warnings.push(
                        ValidationWarning { element_position: Some(position), message: msg },
                    );
                    proof {
                        assert(warnings.deep_view() =~= prevw.push(ValidationWarningView {
                            element_position: Some(position),
                            message: "Element '"@ + edv.name + "' at position "@ + spec_dec(
                                position as nat,
                            ) + " contains non-printable characters"@,
                        }));
                    }
                }
            },
            ElementDataType::B => {},
        }
        proof {
            assert(gseg.elements[position - 1] == value@);
            assert(final(errors).deep_view() =~= old(errors).deep_view() + sv_errors_at(
                edv,
                gseg,
                position - 1,
            ));
            assert(final(warnings).deep_view() =~= old(warnings).deep_view() + sv_warnings_at(
                edv,
                gseg,
                position - 1,
            ));
        }
    }

    /// Count one identifier across a transaction's segments and hold the
    /// count to the definition's usage bounds.
    pub fn validate_segment_usage(&self, segments: &[Segment], segment_id: &str) -> (r: Result<
        (),
        EdiError,
    >)
        ensures
            match spec_registry_lookup(self.reg(), self.ver(), segment_id@) {
                None => r matches Err(e) && (e matches EdiError::InvalidSegmentFormat(m) && m@
                    == "Unknown segment: "@ + segment_id@),
                Some(def) => {
                    let count = count_segments_with_id(segments.deep_view(), segment_id@);
                    if count < def.min_usage || (def.max_usage matches Some(m) && count > m) {
                        r matches Err(e) && e matches EdiError::InvalidControlStructure
                    } else {
                        r is Ok
                    }
                },
            },
    {
        let definition = match self.registry.get_definition(&self.version, segment_id) {
            Some(d) => d,
            None => {
                return Err(
                    EdiError::InvalidSegmentFormat(
                        String::from_str("Unknown segment: ").concat(segment_id),
                    ),
                );
            },
        };
        let mut count: usize = 0;
        let mut i: usize = 0;
        while i < segments.len()
            invariant
                i <= segments@.len(),
                count == count_segments_with_id(segments.deep_view().take(i as int), segment_id@),
                count <= i,
            decreases segments@.len() - i,
        {
            proof {
                assert(segments.deep_view().take(i as int + 1).drop_last()
                    =~= segments.deep_view().take(i as int));
                assert(segments.deep_view().take(i as int + 1).last()
                    == segments.deep_view()[i as int]);
                assert(segments.deep_view()[i as int].id == segments@[i as int].id@);
            }
            if string_eq_str(&segments[i].id, segment_id) {
                count = count + 1;
            }
            i = i + 1;
        }
        proof {
            assert(segments.deep_view().take(segments.deep_view().len() as int)
                =~= segments.deep_view());
        }
        if count < definition.min_usage as usize {
            return Err(EdiError::InvalidControlStructure);
        }
        match definition.max_usage {
            Some(m) => {
                if count > m as usize {
                    return Err(EdiError::InvalidControlStructure);
                }
            },
            None => {},
        }
        Ok(())
    }

    /// The registered definition for one identifier.
    pub fn get_segment_definition(&self, segment_id: &str) -> (r: Option<&SegmentDefinition>)
        ensures
            match r {
                Some(d) => spec_registry_lookup(self.reg(), self.ver(), segment_id@) == Some(d@),
                None => spec_registry_lookup(self.reg(), self.ver(), segment_id@) is None,
            },
    {
        self.registry.get_definition(&self.version, segment_id)
    }

    /// Every identifier registered for this validator's version.
    pub fn get_registered_segments(&self) -> (r: Vec<String>)
        ensures
            r.deep_view() == spec_ids_for_version(self.reg(), self.ver()),
    {
        self.registry.get_registered_segments_for_version(&self.version)
    }
}

/// Occurrences of a segment identifier in a list of segments.
pub open spec fn count_segments_with_id(segs: Seq<SegmentView>, id: Seq<char>) -> nat
    decreases segs.len(),
{
    if segs.len() == 0 {
        0
    } else {
        count_segments_with_id(segs.drop_last(), id) + (if segs.last().id == id {
            1nat
        } else {
            0nat
        })
    }
}

} // verus!
