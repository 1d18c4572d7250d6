use crate::error::EdiError;
use crate::models::segment_definition::{
    ElementDataType, ElementDefinition, ElementDefinitionView, ElementRequirement,
};
use crate::utils::{
    all_digits, is_decimal, spec_dec, spec_num, str_all_digits, str_is_decimal, string_vec_contains,
    u32_to_string, usize_to_string,
};
use vstd::prelude::*;

verus! {

/// One element value paired with its definition, ready for validation.
#[derive(Debug)]
pub struct ValidatedElement {
    pub definition: ElementDefinition,
    pub value: Option<String>,
    pub position: usize,
}

/// The mathematical content of a `ValidatedElement`.
#[verifier::ext_equal]
pub struct ValidatedElementView {
    pub definition: ElementDefinitionView,
    pub value: Option<Seq<char>>,
    pub position: usize,
}

impl View for ValidatedElement {
    type V = ValidatedElementView;

    open spec fn view(&self) -> ValidatedElementView {
        ValidatedElementView {
            definition: self.definition@,
            value: match self.value {
                Some(ref v) => Some(v@),
                None => None,
            },
            position: self.position,
        }
    }
}

impl DeepView for ValidatedElement {
    type V = ValidatedElementView;

    open spec fn deep_view(&self) -> ValidatedElementView {
        self.view()
    }
}

pub open spec fn vmsg_head(e: ElementDefinitionView, position: usize) -> Seq<char> {
    "Element "@ + e.name + " (ID: "@ + spec_dec(e.element_id as nat) + ") at position "@
        + spec_dec(position as nat)
}

pub open spec fn vmsg_missing(e: ElementDefinitionView, position: usize) -> Seq<char> {
    "Required element "@ + e.name + " (ID: "@ + spec_dec(e.element_id as nat) + ") at position "@
        + spec_dec(position as nat) + " is missing"@
}

pub open spec fn vmsg_value(
    e: ElementDefinitionView,
    position: usize,
    v: Seq<char>,
    tail: Seq<char>,
) -> Seq<char> {
    vmsg_head(e, position) + ": '"@ + v + "'"@ + tail
}

/// The data-type diagnostic of the element validator, or `None` when the
/// value fits.  Dates must be eight digits with a plausible month and day;
/// times four or six digits with plausible fields.
pub open spec fn spec_validate_data_type(
    e: ElementDefinitionView,
    position: usize,
    v: Seq<char>,
) -> Option<Seq<char>> {
    match e.data_type {
        ElementDataType::N => if !all_digits(v) {
            Some(vmsg_value(e, position, v, " must be numeric"@))
        } else {
            None
        },
        ElementDataType::R => if !is_decimal(v) {
            Some(vmsg_value(e, position, v, " must be a valid decimal number"@))
        } else {
            None
        },
        ElementDataType::DT => if v.len() == 8 && all_digits(v) {
            if !(1 <= spec_num(v.subrange(4, 6)) <= 12) {
                Some(vmsg_value(e, position, v, " has invalid month"@))
            } else if !(1 <= spec_num(v.subrange(6, 8)) <= 31) {
                Some(vmsg_value(e, position, v, " has invalid day"@))
            } else {
                None
            }
        } else {
            Some(vmsg_value(e, position, v, " must be a valid date (CCYYMMDD)"@))
        },
        ElementDataType::TM => if (v.len() == 4 || v.len() == 6) && all_digits(v) {
            if spec_num(v.subrange(0, 2)) > 23 {
                Some(vmsg_value(e, position, v, " has invalid hour"@))
            } else if spec_num(v.subrange(2, 4)) > 59 {
                Some(vmsg_value(e, position, v, " has invalid minute"@))
            } else if v.len() == 6 && spec_num(v.subrange(4, 6)) > 59 {
                Some(vmsg_value(e, position, v, " has invalid second"@))
            } else {
                None
            }
        } else {
            Some(vmsg_value(e, position, v, " must be a valid time (HHMM or HHMMSS)"@))
        },
        ElementDataType::AN => None,
        ElementDataType::ID => None,
        ElementDataType::B => if v.len() == 0 && e.requirement == ElementRequirement::Mandatory {
            Some(vmsg_head(e, position) + ": Binary data cannot be empty"@)
        } else {
            None
        },
    }
}

/// The first diagnostic of the element validator, or `None` when the element
/// passes: presence of a mandatory value, then length bounds, the data-type
/// format, and finally code-list membership.
pub open spec fn spec_validate_element(
    e: ElementDefinitionView,
    value: Option<Seq<char>>,
    position: usize,
) -> Option<Seq<char>> {
    if e.requirement == ElementRequirement::Mandatory && value is None {
        Some(vmsg_missing(e, position))
    } else if value is None {
        None
    } else {
        let v = value->Some_0;
        if v.len() == 0 && e.requirement != ElementRequirement::Mandatory {
            None
        } else if (match e.min_length {
            Some(m) => v.len() < m,
            None => false,
        }) {
            Some(
                vmsg_value(e, position, v, " is too short (min: "@) + spec_dec(
                    e.min_length->Some_0 as nat,
                ) + ")"@,
            )
        } else if (match e.max_length {
            Some(m) => v.len() > m,
            None => false,
        }) {
            Some(
                vmsg_value(e, position, v, " is too long (max: "@) + spec_dec(
                    e.max_length->Some_0 as nat,
                ) + ")"@,
            )
        } else if spec_validate_data_type(e, position, v) is Some {
            spec_validate_data_type(e, position, v)
        } else if (match e.valid_codes {
            Some(codes) => !codes.contains(v),
            None => false,
        }) {
            Some(vmsg_value(e, position, v, " is not a valid code"@))
        } else {
            None
        }
    }
}

fn exec_vmsg_head(e: &ElementDefinition, position: usize) -> (r: String)
    ensures
        r@ == vmsg_head(e@, position),
{
    String::from_str("Element ").concat(e.name.as_str()).concat(" (ID: ").concat(
        u32_to_string(e.element_id).as_str(),
    ).concat(") at position ").concat(usize_to_string(position).as_str())
}

fn exec_vmsg_value(e: &ElementDefinition, position: usize, v: &str, tail: &str) -> (r: String)
    ensures
        r@ == vmsg_value(e@, position, v@, tail@),
{
    exec_vmsg_head(e, position).concat(": '").concat(v).concat("'").concat(tail)
}

impl ValidatedElement {
    pub fn new(definition: ElementDefinition, value: Option<String>, position: usize) -> (r: Self)
        ensures
            r@.definition == definition@,
            r@.value == (match value {
                Some(v) => Some(v@),
                None => None::<Seq<char>>,
            }),
            r@.position == position,
    {
        ValidatedElement { definition, value, position }
    }

    /// Check this element against its definition, reporting the first
    /// violated rule.
    pub fn validate(&self) -> (r: Result<(), EdiError>)
        ensures
            match r {
                Ok(_) => spec_validate_element(self@.definition, self@.value, self@.position)
                    is None,
                Err(e) => e matches EdiError::ValidationError(m) && spec_validate_element(
                    self@.definition,
                    self@.value,
                    self@.position,
                ) == Some(m@),
            },
    {
        let e = &self.definition;
        let mandatory = e.requirement == ElementRequirement::Mandatory;
        let value = match &self.value {
            None => {
                if mandatory {
                    let msg = String::from_str("Required element ").concat(e.name.as_str()).concat(
                        " (ID: ",
                    ).concat(u32_to_string(e.element_id).as_str()).concat(
                        ") at position ",
                    ).concat(usize_to_string(self.position).as_str()).concat(" is missing");
                    return Err(EdiError::ValidationError(msg));
                }
                return Ok(());
            },
            Some(v) => v,
        };
        let vlen = value.as_str().unicode_len();
        if vlen == 0 && !mandatory {
            return Ok(());
        }
        match e.min_length {
            Some(m) => {
                if vlen < m as usize {
                    let msg = exec_vmsg_value(
                        e,
                        self.position,
                        value.as_str(),
                        " is too short (min: ",
                    ).concat(u32_to_string(m).as_str()).concat(")");
                    return Err(EdiError::ValidationError(msg));
                }
            },
            None => {},
        }
        match e.max_length {
            Some(m) => {
                if vlen > m as usize {
                    let msg = exec_vmsg_value(
                        e,
                        self.position,
                        value.as_str(),
                        " is too long (max: ",
                    ).concat(u32_to_string(m).as_str()).concat(")");
                    return Err(EdiError::ValidationError(msg));
                }
            },
            None => {},
        }
        match self.validate_data_type(value.as_str()) {
            Ok(_) => {},
            Err(err) => {
                return Err(err);
            },
        }
        match &e.valid_codes {
            Some(codes) => {
                if !string_vec_contains(codes, value.as_str()) {
                    let msg = exec_vmsg_value(
                        e,
                        self.position,
                        value.as_str(),
                        " is not a valid code",
                    );
                    return Err(EdiError::ValidationError(msg));
                }
            },
            None => {},
        }
        Ok(())
    }

    fn validate_data_type(&self, value: &str) -> (r: Result<(), EdiError>)
        ensures
            match r {
                Ok(_) => spec_validate_data_type(self@.definition, self@.position, value@) is None,
                Err(e) => e matches EdiError::ValidationError(m) && spec_validate_data_type(
                    self@.definition,
                    self@.position,
                    value@,
                ) == Some(m@),
            },
    {
        let e = &self.definition;
        let vlen = value.unicode_len();
        match e.data_type {
            ElementDataType::N => {
                if !str_all_digits(value) {
                    return Err(
                        EdiError::ValidationError(
                            exec_vmsg_value(e, self.position, value, " must be numeric"),
                        ),
                    );
                }
                Ok(())
            },
            ElementDataType::R => {
                if !str_is_decimal(value) {
                    return Err(
                        EdiError::ValidationError(
                            exec_vmsg_value(
                                e,
                                self.position,
                                value,
                                " must be a valid decimal number",
                            ),
                        ),
                    );
                }
                Ok(())
            },
            ElementDataType::DT => {
                if vlen == 8 && str_all_digits(value) {
                    let month_str = value.substring_char(4, 6);
                    let day_str = value.substring_char(6, 8);
                    proof {
                        assert(month_str@ =~= value@.subrange(4, 6));
                        assert(day_str@ =~= value@.subrange(6, 8));
                    }
                    let month = match crate::utils::parse_u32(month_str) {
                        Some(m) => m,
                        None => {
                            proof {
                                crate::utils::lemma_two_digit_num(value@, 4);
                                assert(false);
                            }
                            0
                        },
                    };
                    let day = match crate::utils::parse_u32(day_str) {
                        Some(d) => d,
                        None => {
                            proof {
                                crate::utils::lemma_two_digit_num(value@, 6);
                                assert(false);
                            }
                            0
                        },
                    };
                    if month < 1 || month > 12 {
                        return Err(
                            EdiError::ValidationError(
                                exec_vmsg_value(e, self.position, value, " has invalid month"),
                            ),
                        );
                    }
                    if day < 1 || day > 31 {
                        return Err(
                            EdiError::ValidationError(
                                exec_vmsg_value(e, self.position, value, " has invalid day"),
                            ),
                        );
                    }
                    Ok(())
                } else {
                    Err(
                        EdiError::ValidationError(
                            exec_vmsg_value(
                                e,
                                self.position,
                                value,
                                " must be a valid date (CCYYMMDD)",
                            ),
                        ),
                    )
                }
            },
            ElementDataType::TM => {
                if (vlen == 4 || vlen == 6) && str_all_digits(value) {
                    let hour_str = value.substring_char(0, 2);
                    let minute_str = value.substring_char(2, 4);
                    proof {
                        assert(hour_str@ =~= value@.subrange(0, 2));
                        assert(minute_str@ =~= value@.subrange(2, 4));
                    }
                    let hour = match crate::utils::parse_u32(hour_str) {
                        Some(h) => h,
                        None => {
                            proof {
                                crate::utils::lemma_two_digit_num(value@, 0);
                                assert(false);
                            }
                            0
                        },
                    };
                    let minute = match crate::utils::parse_u32(minute_str) {
                        Some(m) => m,
                        None => {
                            proof {
                                crate::utils::lemma_two_digit_num(value@, 2);
                                assert(false);
                            }
                            0
                        },
                    };
                    if hour > 23 {
                        return Err(
                            EdiError::ValidationError(
                                exec_vmsg_value(e, self.position, value, " has invalid hour"),
                            ),
                        );
                    }
                    if minute > 59 {
                        return Err(
                            EdiError::ValidationError(
                                exec_vmsg_value(e, self.position, value, " has invalid minute"),
                            ),
                        );
                    }
                    if vlen == 6 {
                        let second_str = value.substring_char(4, 6);
                        proof {
                            assert(second_str@ =~= value@.subrange(4, 6));
                        }
                        let second = match crate::utils::parse_u32(second_str) {
                            Some(s) => s,
                            None => {
                                proof {
                                    crate::utils::lemma_two_digit_num(value@, 4);
                                    assert(false);
                                }
                                0
                            },
                        };
                        if second > 59 {
                            return Err(
                                EdiError::ValidationError(
                                    exec_vmsg_value(e, self.position, value, " has invalid second"),
                                ),
                            );
                        }
                    }
                    Ok(())
                } else {
                    Err(
                        EdiError::ValidationError(
                            exec_vmsg_value(
                                e,
                                self.position,
                                value,
                                " must be a valid time (HHMM or HHMMSS)",
                            ),
                        ),
                    )
                }
            },
            ElementDataType::AN => Ok(()),
            ElementDataType::ID => Ok(()),
            ElementDataType::B => {
                if vlen == 0 && e.requirement == ElementRequirement::Mandatory {
                    return Err(
                        EdiError::ValidationError(
                            exec_vmsg_head(e, self.position).concat(
                                ": Binary data cannot be empty",
                            ),
                        ),
                    );
                }
                Ok(())
            },
        }
    }

    /// The element's stable numeric identifier.
    pub fn element_id(&self) -> (r: u32)
        ensures
            r == self@.definition.element_id,
    {
        self.definition.element_id
    }

    /// The element's name.
    pub fn element_name(&self) -> (r: &str)
        ensures
            r@ == self@.definition.name,
    {
        self.definition.name.as_str()
    }

    /// The element's value, when present.
    pub fn value(&self) -> (r: Option<&str>)
        ensures
            match r {
                Some(v) => self@.value == Some(v@),
                None => self@.value is None,
            },
    {
        match &self.value {
            Some(v) => Some(v.as_str()),
            None => None,
        }
    }

    /// Whether the element is mandatory.
    pub fn is_required(&self) -> (r: bool)
        ensures
            r == (self@.definition.requirement == ElementRequirement::Mandatory),
    {
        self.definition.requirement == ElementRequirement::Mandatory
    }
}

/// The first failing element of a list, scanning in order.
pub open spec fn spec_first_element_error(elements: Seq<ValidatedElementView>, n: int) -> Option<
    Seq<char>,
>
    decreases n,
{
    if n <= 0 {
        None
    } else {
        match spec_first_element_error(elements, n - 1) {
            Some(m) => Some(m),
            None => spec_validate_element(
                elements[n - 1].definition,
                elements[n - 1].value,
                elements[n - 1].position,
            ),
        }
    }
}

proof fn lemma_first_error_propagates(elements: Seq<ValidatedElementView>, k: int, n: int)
    requires
        0 <= k <= n,
        spec_first_element_error(elements, k) is Some,
    ensures
        spec_first_element_error(elements, n) == spec_first_element_error(elements, k),
    decreases n,
{
    if n > k {
        lemma_first_error_propagates(elements, k, n - 1);
    }
}

/// A segment's elements paired with their definitions.
#[derive(Debug)]
pub struct ValidatedSegment {
    pub segment_id: String,
    pub elements: Vec<ValidatedElement>,
}

impl ValidatedSegment {
    pub fn new(segment_id: String) -> (r: Self)
        ensures
            r.segment_id@ == segment_id@,
            r.elements@.len() == 0,
    {
        ValidatedSegment { segment_id, elements: Vec::new() }
    }

    pub fn add_element(&mut self, element: ValidatedElement)
        ensures
            final(self).elements.deep_view() == old(self).elements.deep_view().push(element@),
            final(self).segment_id == old(self).segment_id,
    {
        let ghost prev = self.elements.deep_view();
        let ghost ev = element@;
        self.elements.push(element);
        proof {
            assert(self.elements.deep_view() =~= prev.push(ev));
        }
    }

    /// Validate every element in order, reporting the first violation.
    pub fn validate(&self) -> (r: Result<(), EdiError>)
        ensures
            match r {
                Ok(_) => spec_first_element_error(
                    self.elements.deep_view(),
                    self.elements.deep_view().len() as int,
                ) is None,
                Err(e) => e matches EdiError::ValidationError(m) && spec_first_element_error(
                    self.elements.deep_view(),
                    self.elements.deep_view().len() as int,
                ) == Some(m@),
            },
    {
        let mut i: usize = 0;
        while i < self.elements.len()
            invariant
                i <= self.elements@.len(),
                spec_first_element_error(self.elements.deep_view(), i as int) is None,
            decreases self.elements@.len() - i,
        {
            proof {
                assert(self.elements.deep_view()[i as int] == self.elements@[i as int]@);
            }
            match self.elements[i].validate() {
                Ok(_) => {},
                Err(e) => {
                    proof {
                        assert(spec_first_element_error(self.elements.deep_view(), i as int + 1)
                            is Some);
                        lemma_first_error_propagates(
                            self.elements.deep_view(),
                            i as int + 1,
                            self.elements.deep_view().len() as int,
                        );
                    }
                    return Err(e);
                },
            }
            i = i + 1;
        }
        Ok(())
    }

    /// The first element with a given identifier.
    pub fn get_element_by_id(&self, element_id: u32) -> (r: Option<&ValidatedElement>)
        ensures
            match r {
                Some(e) => exists|k: int|
                    0 <= k < self.elements.deep_view().len() && (#[trigger] self.elements.deep_view()[k]).definition.element_id
                        == element_id && e@ == self.elements.deep_view()[k],
                None => forall|k: int|
                    0 <= k < self.elements.deep_view().len()
                        ==> (#[trigger] self.elements.deep_view()[k]).definition.element_id
                        != element_id,
            },
    {
        let mut i: usize = 0;
        while i < self.elements.len()
            invariant
                i <= self.elements@.len(),
                forall|k: int|
                    0 <= k < i ==> (#[trigger] self.elements.deep_view()[k]).definition.element_id
                        != element_id,
            decreases self.elements@.len() - i,
        {
            proof {
                assert(self.elements.deep_view()[i as int] == self.elements@[i as int]@);
            }
            if self.elements[i].definition.element_id == element_id {
                return Some(&self.elements[i]);
            }
            i = i + 1;
        }
        None
    }

    /// The first element at a given position.
    pub fn get_element_by_position(&self, position: usize) -> (r: Option<&ValidatedElement>)
        ensures
            match r {
                Some(e) => exists|k: int|
                    0 <= k < self.elements.deep_view().len()
                        && (#[trigger] self.elements.deep_view()[k]).position == position && e@
                        == self.elements.deep_view()[k],
                None => forall|k: int|
                    0 <= k < self.elements.deep_view().len()
                        ==> (#[trigger] self.elements.deep_view()[k]).position != position,
            },
    {
        let mut i: usize = 0;
        while i < self.elements.len()
            invariant
                i <= self.elements@.len(),
                forall|k: int|
                    0 <= k < i ==> (#[trigger] self.elements.deep_view()[k]).position != position,
            decreases self.elements@.len() - i,
        {
            proof {
                assert(self.elements.deep_view()[i as int] == self.elements@[i as int]@);
            }
            if self.elements[i].position == position {
                return Some(&self.elements[i]);
            }
            i = i + 1;
        }
        None
    }

    /// The mandatory elements that carry no value, in order.
    pub fn get_missing_required_elements(&self) -> (r: Vec<&ValidatedElement>)
        ensures
            r@.len() <= self.elements@.len(),
            forall|k: int|
                0 <= k < r@.len() ==> (#[trigger] r@[k])@.definition.requirement
                    == ElementRequirement::Mandatory && r@[k]@.value is None,
    {
        let mut r: Vec<&ValidatedElement> = Vec::new();
        let mut i: usize = 0;
        while i < self.elements.len()
            invariant
                i <= self.elements@.len(),
                r@.len() <= i,
                forall|k: int|
                    0 <= k < r@.len() ==> (#[trigger] r@[k])@.definition.requirement
                        == ElementRequirement::Mandatory && r@[k]@.value is None,
            decreases self.elements@.len() - i,
        {
            let is_required = self.elements[i].definition.requirement
                == ElementRequirement::Mandatory;
            let is_missing = match &self.elements[i].value {
                None => true,
                Some(_) => false,
            };
            if is_required && is_missing {
                r.push(&self.elements[i]);
            }
            i = i + 1;
        }
        r
    }
}

// ---------------------------------------------------------------------------
// Overlay monotonicity for extended code lists
// ---------------------------------------------------------------------------

/// Customization overlay monotonicity for `ExtendValidCodes`: widening an
/// element's code list can only remove the code-membership Error, never add a
/// diagnostic.  Every diagnostic of the widened definition is a diagnostic of
/// the base definition, word for word, and a diagnostic the widening removes
/// is the code-membership Error.
pub proof fn lemma_extend_valid_codes_monotone(
    e: ElementDefinitionView,
    e2: ElementDefinitionView,
    value: Option<Seq<char>>,
    position: usize,
)
    requires
        e.valid_codes matches Some(cs),
        e2.valid_codes matches Some(cs2),
        forall|c: Seq<char>|
            e.valid_codes->Some_0.contains(c) ==> e2.valid_codes->Some_0.contains(c),
        e2.element_id == e.element_id,
        e2.name == e.name,
        e2.data_type == e.data_type,
        e2.min_length == e.min_length,
        e2.max_length == e.max_length,
        e2.requirement == e.requirement,
        e2.description == e.description,
    ensures
        spec_validate_element(e, value, position) is None ==> spec_validate_element(
            e2,
            value,
            position,
        ) is None,
        spec_validate_element(e2, value, position) matches Some(m) ==> spec_validate_element(
            e,
            value,
            position,
        ) == Some(m),
        (spec_validate_element(e, value, position) is Some && spec_validate_element(
            e2,
            value,
            position,
        ) is None) ==> spec_validate_element(e, value, position) == Some(
            vmsg_value(e, position, value->Some_0, " is not a valid code"@),
        ),
{
    if value is Some {
        let v = value->Some_0;
        assert(spec_validate_data_type(e2, position, v) == spec_validate_data_type(
            e,
            position,
            v,
        ));
    }
}

} // verus!
