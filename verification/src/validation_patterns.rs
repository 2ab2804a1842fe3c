//! Reusable input validators with user-facing error messages.
use vstd::prelude::*;
use crate::text::{byte_len, concat2, concat3, decimal, owned, parse_i64, parse_signed, signed_decimal, signed_to_string, str_byte_len, str_trim, trim, unsigned_to_string};

verus! {

/// A validation failure with what the user needs to fix it.
#[derive(Debug, Clone)]
pub enum CommonValidationError {
    Empty { field_name: String },
    InvalidFormat { field_name: String, expected_format: String },
    OutOfRange { field_name: String, min: Option<String>, max: Option<String> },
    TooLong { field_name: String, max_length: usize, actual_length: usize },
    TooShort { field_name: String, min_length: usize, actual_length: usize },
}

/// The mathematical content of a [`CommonValidationError`].
pub enum CommonValidationErrorView {
    Empty { field_name: Seq<char> },
    InvalidFormat { field_name: Seq<char>, expected_format: Seq<char> },
    OutOfRange { field_name: Seq<char>, min: Option<Seq<char>>, max: Option<Seq<char>> },
    TooLong { field_name: Seq<char>, max_length: nat, actual_length: nat },
    TooShort { field_name: Seq<char>, min_length: nat, actual_length: nat },
}

/// The text of an optional string.
pub open spec fn opt_view(o: Option<String>) -> Option<Seq<char>> {
    match o {
        Some(s) => Some(s@),
        None => None,
    }
}

impl View for CommonValidationError {
    type V = CommonValidationErrorView;

    open spec fn view(&self) -> CommonValidationErrorView {
        match self {
            CommonValidationError::Empty { field_name } => CommonValidationErrorView::Empty {
                field_name: field_name@,
            },
            CommonValidationError::InvalidFormat { field_name, expected_format } =>
                CommonValidationErrorView::InvalidFormat {
                field_name: field_name@,
                expected_format: expected_format@,
            },
            CommonValidationError::OutOfRange { field_name, min, max } =>
                CommonValidationErrorView::OutOfRange {
                field_name: field_name@,
                min: opt_view(*min),
                max: opt_view(*max),
            },
            CommonValidationError::TooLong { field_name, max_length, actual_length } =>
                CommonValidationErrorView::TooLong {
                field_name: field_name@,
                max_length: *max_length as nat,
                actual_length: *actual_length as nat,
            },
            CommonValidationError::TooShort { field_name, min_length, actual_length } =>
                CommonValidationErrorView::TooShort {
                field_name: field_name@,
                min_length: *min_length as nat,
                actual_length: *actual_length as nat,
            },
        }
    }
}

impl CommonValidationErrorView {
    /// The message shown to the user for this failure.
    pub open spec fn message(self) -> Seq<char> {
        match self {
            CommonValidationErrorView::Empty { field_name } => field_name + " cannot be empty"@,
            CommonValidationErrorView::InvalidFormat { field_name, expected_format } => field_name
                + " must be in "@ + expected_format + " format"@,
            CommonValidationErrorView::OutOfRange { field_name, min, max } => match (min, max) {
                (Some(lo), Some(hi)) => field_name + " must be between "@ + lo + " and "@ + hi,
                (Some(lo), None) => field_name + " must be at least "@ + lo,
                (None, Some(hi)) => field_name + " must be at most "@ + hi,
                (None, None) => field_name + " is out of range"@,
            },
            CommonValidationErrorView::TooLong { field_name, max_length, actual_length } =>
                field_name + " is too long ("@ + decimal(actual_length) + " characters, maximum "@
                + decimal(max_length) + ")"@,
            CommonValidationErrorView::TooShort { field_name, min_length, actual_length } =>
                field_name + " is too short ("@ + decimal(actual_length)
                + " characters, minimum "@ + decimal(min_length) + ")"@,
        }
    }
}

impl CommonValidationError {
    /// The field is empty.
    pub fn empty(field_name: &str) -> (r: Self)
        ensures
            r@ == (CommonValidationErrorView::Empty { field_name: field_name@ }),
    {
        CommonValidationError::Empty { field_name: owned(field_name) }
    }

    /// The field is not in the expected format.
    pub fn invalid_format(field_name: &str, expected_format: &str) -> (r: Self)
        ensures
            r@ == (CommonValidationErrorView::InvalidFormat {
                field_name: field_name@,
                expected_format: expected_format@,
            }),
    {
        CommonValidationError::InvalidFormat {
            field_name: owned(field_name),
            expected_format: owned(expected_format),
        }
    }

    /// The field's value lies outside the given bounds.
    pub fn out_of_range(field_name: &str, min: Option<String>, max: Option<String>) -> (r: Self)
        ensures
            r@ == (CommonValidationErrorView::OutOfRange {
                field_name: field_name@,
                min: opt_view(min),
                max: opt_view(max),
            }),
    {
        CommonValidationError::OutOfRange { field_name: owned(field_name), min, max }
    }

    /// The field is longer than allowed.
    pub fn too_long(field_name: &str, max_length: usize, actual_length: usize) -> (r: Self)
        ensures
            r@ == (CommonValidationErrorView::TooLong {
                field_name: field_name@,
                max_length: max_length as nat,
                actual_length: actual_length as nat,
            }),
    {
        CommonValidationError::TooLong { field_name: owned(field_name), max_length, actual_length }
    }

    /// The field is shorter than required.
    pub fn too_short(field_name: &str, min_length: usize, actual_length: usize) -> (r: Self)
        ensures
            r@ == (CommonValidationErrorView::TooShort {
                field_name: field_name@,
                min_length: min_length as nat,
                actual_length: actual_length as nat,
            }),
    {
        CommonValidationError::TooShort { field_name: owned(field_name), min_length, actual_length }
    }

    /// The message shown to the user.
    pub fn user_message(&self) -> (r: String)
        ensures
            r@ == self@.message(),
    {
        match self {
            CommonValidationError::Empty { field_name } => concat2(
                field_name.as_str(),
                " cannot be empty",
            ),
            CommonValidationError::InvalidFormat { field_name, expected_format } => {
                let mut r = concat3(field_name.as_str(), " must be in ", expected_format.as_str());
                r.append(" format");
                r
            },
            CommonValidationError::OutOfRange { field_name, min, max } => match (min, max) {
                (Some(lo), Some(hi)) => {
                    let mut r = concat3(field_name.as_str(), " must be between ", lo.as_str());
                    r.append(" and ");
                    r.append(hi.as_str());
                    r
                },
                (Some(lo), None) => concat3(field_name.as_str(), " must be at least ", lo.as_str()),
                (None, Some(hi)) => concat3(field_name.as_str(), " must be at most ", hi.as_str()),
                (None, None) => concat2(field_name.as_str(), " is out of range"),
            },
            CommonValidationError::TooLong { field_name, max_length, actual_length } => {
                let actual = unsigned_to_string(*actual_length as u128);
                let maximum = unsigned_to_string(*max_length as u128);
                let mut r = concat3(field_name.as_str(), " is too long (", actual.as_str());
                r.append(" characters, maximum ");
                r.append(maximum.as_str());
                r.append(")");
                r
            },
            CommonValidationError::TooShort { field_name, min_length, actual_length } => {
                let actual = unsigned_to_string(*actual_length as u128);
                let minimum = unsigned_to_string(*min_length as u128);
                let mut r = concat3(field_name.as_str(), " is too short (", actual.as_str());
                r.append(" characters, minimum ");
                r.append(minimum.as_str());
                r.append(")");
                r
            },
        }
    }
}

/// The decimal text of an optional bound.
pub open spec fn bound_text(b: Option<i64>) -> Option<Seq<char>> {
    match b {
        Some(v) => Some(signed_decimal(v as int)),
        None => None,
    }
}

/// What [`NumericRangeValidator::validate`] decides for a field with the given
/// bounds: the input, once trimmed, must be a decimal `i64` within them.
pub open spec fn numeric_range_outcome(
    field_name: Seq<char>,
    min: Option<i64>,
    max: Option<i64>,
    input: Seq<char>,
) -> Result<(), CommonValidationErrorView> {
    let t = trim(input);
    if t.len() == 0 {
        Err(CommonValidationErrorView::Empty { field_name })
    } else {
        match parse_signed(t) {
            Some(v) if i64::MIN <= v <= i64::MAX => {
                if min is Some && v < min->0 {
                    Err(
                        CommonValidationErrorView::OutOfRange {
                            field_name,
                            min: bound_text(min),
                            max: bound_text(max),
                        },
                    )
                } else if max is Some && v > max->0 {
                    Err(
                        CommonValidationErrorView::OutOfRange {
                            field_name,
                            min: bound_text(min),
                            max: bound_text(max),
                        },
                    )
                } else {
                    Ok(())
                }
            },
            _ => Err(
                CommonValidationErrorView::InvalidFormat {
                    field_name,
                    expected_format: "valid number"@,
                },
            ),
        }
    }
}

/// The view of a validation result.
pub open spec fn result_view(r: Result<(), CommonValidationError>) -> Result<
    (),
    CommonValidationErrorView,
> {
    match r {
        Ok(()) => Ok(()),
        Err(e) => Err(e@),
    }
}

/// Validates that a field holds a whole number, optionally within bounds.
pub struct NumericRangeValidator {
    pub min: Option<i64>,
    pub max: Option<i64>,
    pub field_name: String,
}

fn optional_bound_text(b: Option<i64>) -> (r: Option<String>)
    ensures
        opt_view(r) == bound_text(b),
{
    match b {
        Some(v) => Some(signed_to_string(v as i128)),
        None => None,
    }
}

impl NumericRangeValidator {
    /// A validator without bounds.
    pub fn new(field_name: &str) -> (r: Self)
        ensures
            r.min is None,
            r.max is None,
            r.field_name@ == field_name@,
    {
        NumericRangeValidator { min: None, max: None, field_name: owned(field_name) }
    }

    /// The same validator with both bounds set (inclusive).
    pub fn with_range(self, min: i64, max: i64) -> (r: Self)
        ensures
            r.min == Some(min),
            r.max == Some(max),
            r.field_name == self.field_name,
    {
        NumericRangeValidator { min: Some(min), max: Some(max), field_name: self.field_name }
    }

    /// Checks `input`; see [`numeric_range_outcome`].
    pub fn validate(&self, input: &str) -> (r: Result<(), CommonValidationError>)
        ensures
            result_view(r) == numeric_range_outcome(self.field_name@, self.min, self.max, input@),
    {
        let trimmed = str_trim(input);
        if trimmed.is_empty() {
            return Err(CommonValidationError::empty(self.field_name.as_str()));
        }
        let number = match parse_i64(trimmed) {
            Some(n) => n,
            None => {
                return Err(
                    CommonValidationError::invalid_format(self.field_name.as_str(), "valid number"),
                );
            },
        };
        if let Some(min) = self.min {
            if number < min {
                return Err(
                    CommonValidationError::out_of_range(
                        self.field_name.as_str(),
                        optional_bound_text(self.min),
                        optional_bound_text(self.max),
                    ),
                );
            }
        }
        if let Some(max) = self.max {
            if number > max {
                return Err(
                    CommonValidationError::out_of_range(
                        self.field_name.as_str(),
                        optional_bound_text(self.min),
                        optional_bound_text(self.max),
                    ),
                );
            }
        }
        Ok(())
    }
}

/// What [`StringLengthValidator::validate`] decides: the input's length in
/// bytes must respect the optional bounds.
pub open spec fn string_length_outcome(
    field_name: Seq<char>,
    min_length: Option<usize>,
    max_length: Option<usize>,
    input: Seq<char>,
) -> Result<(), CommonValidationErrorView> {
    let len = (byte_len(input) as usize) as nat;
    if min_length is Some && len < min_length->0 {
        Err(
            CommonValidationErrorView::TooShort {
                field_name,
                min_length: min_length->0 as nat,
                actual_length: len,
            },
        )
    } else if max_length is Some && len > max_length->0 {
        Err(
            CommonValidationErrorView::TooLong {
                field_name,
                max_length: max_length->0 as nat,
                actual_length: len,
            },
        )
    } else {
        Ok(())
    }
}

/// Validates the length (in bytes) of a text field.
pub struct StringLengthValidator {
    pub min_length: Option<usize>,
    pub max_length: Option<usize>,
    pub field_name: String,
}

impl StringLengthValidator {
    /// A validator without bounds.
    pub fn new(field_name: &str) -> (r: Self)
        ensures
            r.min_length is None,
            r.max_length is None,
            r.field_name@ == field_name@,
    {
        StringLengthValidator { min_length: None, max_length: None, field_name: owned(field_name) }
    }

    /// The same validator with a minimum length.
    pub fn with_min_length(self, min_length: usize) -> (r: Self)
        ensures
            r.min_length == Some(min_length),
            r.max_length == self.max_length,
            r.field_name == self.field_name,
    {
        StringLengthValidator {
            min_length: Some(min_length),
            max_length: self.max_length,
            field_name: self.field_name,
        }
    }

    /// The same validator with a maximum length.
    pub fn with_max_length(self, max_length: usize) -> (r: Self)
        ensures
            r.max_length == Some(max_length),
            r.min_length == self.min_length,
            r.field_name == self.field_name,
    {
        StringLengthValidator {
            min_length: self.min_length,
            max_length: Some(max_length),
            field_name: self.field_name,
        }
    }

    /// Checks `input`; see [`string_length_outcome`].
    pub fn validate(&self, input: &str) -> (r: Result<(), CommonValidationError>)
        ensures
            result_view(r) == string_length_outcome(
                self.field_name@,
                self.min_length,
                self.max_length,
                input@,
            ),
    {
        let length = str_byte_len(input);
        if let Some(min_length) = self.min_length {
            if length < min_length {
                return Err(
                    CommonValidationError::too_short(self.field_name.as_str(), min_length, length),
                );
            }
        }
        if let Some(max_length) = self.max_length {
            if length > max_length {
                return Err(
                    CommonValidationError::too_long(self.field_name.as_str(), max_length, length),
                );
            }
        }
        Ok(())
    }
}

/// Validation feedback for the interface.
#[derive(Debug, Clone)]
pub struct ValidationState {
    pub is_valid: bool,
    pub error_message: Option<String>,
}

impl ValidationState {
    /// The input is valid.
    pub fn valid() -> (r: Self)
        ensures
            r.is_valid,
            r.error_message is None,
    {
        ValidationState { is_valid: true, error_message: None }
    }

    /// The input is invalid, for the given reason.
    pub fn invalid(message: &str) -> (r: Self)
        ensures
            !r.is_valid,
            opt_view(r.error_message) == Some(message@),
    {
        ValidationState { is_valid: false, error_message: Some(owned(message)) }
    }

    /// Feedback for a validation result: valid on `Ok`, invalid with the
    /// error's text on `Err`.
    pub fn from_result(result: Result<(), String>) -> (r: Self)
        ensures
            r.is_valid == (result is Ok),
            result is Ok ==> r.error_message is None,
            result matches Err(e) ==> opt_view(r.error_message) == Some(e@),
    {
        match result {
            Ok(()) => ValidationState::valid(),
            Err(e) => ValidationState { is_valid: false, error_message: Some(e) },
        }
    }
}

/// The length check accepts exactly the inputs whose length in bytes lies
/// within the bounds it has; a refusal names the field, the broken bound and
/// the actual length.
pub proof fn lemma_length_within_bounds(
    field_name: Seq<char>,
    min_length: Option<usize>,
    max_length: Option<usize>,
    input: Seq<char>,
)
    requires
        byte_len(input) <= usize::MAX,
    ensures
        ({
            let len = byte_len(input);
            let r = string_length_outcome(field_name, min_length, max_length, input);
            let short = min_length is Some && len < min_length->0;
            let long = max_length is Some && len > max_length->0;
            &&& r is Ok <==> !short && !long
            &&& short ==> r == Err::<(), CommonValidationErrorView>(
                CommonValidationErrorView::TooShort {
                    field_name,
                    min_length: min_length->0 as nat,
                    actual_length: len,
                },
            )
            &&& (long && !short) ==> r == Err::<(), CommonValidationErrorView>(
                CommonValidationErrorView::TooLong {
                    field_name,
                    max_length: max_length->0 as nat,
                    actual_length: len,
                },
            )
        }),
{
}

/// The numeric check refuses a blank input as empty, a trimmed input that is
/// not a decimal number in 64 bits as badly formatted, and otherwise accepts
/// exactly the numbers within the bounds.
pub proof fn lemma_number_within_range(
    field_name: Seq<char>,
    min: Option<i64>,
    max: Option<i64>,
    input: Seq<char>,
)
    ensures
        ({
            let t = trim(input);
            let r = numeric_range_outcome(field_name, min, max, input);
            let v = parse_signed(t)->0;
            &&& t.len() == 0 ==> r == Err::<(), CommonValidationErrorView>(
                CommonValidationErrorView::Empty { field_name },
            )
            &&& (t.len() > 0 && parse_signed(t) is None) ==> (r is Err && !(r->Err_0 is OutOfRange))
            &&& (t.len() > 0 && parse_signed(t) is Some && i64::MIN <= v <= i64::MAX) ==> (r is Ok
                <==> (min is Some ==> min->0 <= v) && (max is Some ==> v <= max->0))
        }),
{
}

} // verus!
