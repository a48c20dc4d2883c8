//! Input validation shared across the library.

use vstd::prelude::*;

use crate::strutil::spec_trim;
use crate::strutil::trim_str;

verus! {

/// Why a value was rejected.
#[derive(Debug, Clone)]
pub enum PrmError {
    /// The named field was empty or whitespace-only.
    BlankField { field: String },
    /// The named field was zero or negative.
    NonPositive { field: String },
    /// The named collection held no element.
    EmptySet { field: String },
    /// A remote-interaction entry point was handed the in-person medium.
    UseInPersonMethod,
}

pub type PrmResult<T> = Result<T, PrmError>;

/// The user-facing description of each rejection.
pub open spec fn spec_prm_error_message(e: PrmError) -> Seq<char> {
    match e {
        PrmError::BlankField { field } => field@ + " cannot be blank"@,
        PrmError::NonPositive { field } => field@ + " must be positive"@,
        PrmError::EmptySet { field } => field@ + " cannot be empty"@,
        PrmError::UseInPersonMethod => "Use log_in_person for in-person interactions"@,
    }
}

impl PrmError {
    /// Renders the rejection for the user.
    pub fn message(&self) -> (r: String)
        ensures
            r@ == spec_prm_error_message(*self),
    {
        match self {
            PrmError::BlankField { field } => {
                let mut out = field.clone();
                out.append(" cannot be blank");
                out
            },
            PrmError::NonPositive { field } => {
                let mut out = field.clone();
                out.append(" must be positive");
                out
            },
            PrmError::EmptySet { field } => {
                let mut out = field.clone();
                out.append(" cannot be empty");
                out
            },
            PrmError::UseInPersonMethod => "Use log_in_person for in-person interactions".to_owned(),
        }
    }
}

/// Validates that a string is not blank (empty or whitespace-only).
/// Returns the trimmed string on success.
pub fn non_blank(value: &str, field: &str) -> (r: PrmResult<String>)
    ensures
        spec_trim(value@).len() == 0 <==> r is Err,
        r matches Ok(t) ==> t@ == spec_trim(value@),
        r matches Err(e) ==> e matches PrmError::BlankField { field: f } && f@ == field@,
{
    let trimmed = trim_str(value);
    if trimmed.as_str().is_empty() {
        Err(PrmError::BlankField { field: field.to_owned() })
    } else {
        Ok(trimmed)
    }
}

/// Validates that an integer is positive (> 0).
pub fn positive(value: i32, field: &str) -> (r: PrmResult<i32>)
    ensures
        value > 0 <==> r is Ok,
        r matches Ok(v) ==> v == value,
        r matches Err(e) ==> e matches PrmError::NonPositive { field: f } && f@ == field@,
{
    if value <= 0 {
        Err(PrmError::NonPositive { field: field.to_owned() })
    } else {
        Ok(value)
    }
}

/// Validates that a vector is non-empty.
pub fn non_empty_set<T>(value: &Vec<T>, field: &str) -> (r: PrmResult<()>)
    ensures
        value@.len() > 0 <==> r is Ok,
        r matches Err(e) ==> e matches PrmError::EmptySet { field: f } && f@ == field@,
{
    if value.len() == 0 {
        Err(PrmError::EmptySet { field: field.to_owned() })
    } else {
        Ok(())
    }
}

/// Validates an optional positive integer (absent is valid; a present value
/// must be positive).
pub fn optional_positive(value: Option<i32>, field: &str) -> (r: PrmResult<Option<i32>>)
    ensures
        value is None ==> r == Ok::<Option<i32>, PrmError>(None::<i32>),
        value matches Some(n) ==> (n > 0 <==> r is Ok),
        value matches Some(n) ==> (n > 0 ==> r == Ok::<Option<i32>, PrmError>(Some(n))),
        r matches Err(e) ==> e matches PrmError::NonPositive { field: f } && f@ == field@,
{
    match value {
        None => Ok(None),
        Some(n) => {
            match positive(n, field) {
                Ok(v) => Ok(Some(v)),
                Err(e) => Err(e),
            }
        },
    }
}

/// Trims an optional string, turning a blank or absent value into `None`.
pub fn trim_optional(value: Option<&str>) -> (r: Option<String>)
    ensures
        r matches Some(t) ==> value matches Some(v) && t@ == spec_trim(v@) && t@.len() > 0,
        r is None ==> (value is None || spec_trim(value->0@).len() == 0),
{
    match value {
        None => None,
        Some(s) => {
            let t = trim_str(s);
            if t.as_str().is_empty() {
                None
            } else {
                Some(t)
            }
        },
    }
}

} // verus!
