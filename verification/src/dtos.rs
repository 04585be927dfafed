//! What a request may carry, and the rules it is held to before a handler
//! sees it.

use validator::ValidationError;
use vstd::prelude::*;
use vstd::string::StrSliceExecFns;

verus! {

/// The error of a broken rule, `validator::ValidationError`. It is made
/// and passed on; nothing of it is read.
#[verifier::external_type_specification]
#[verifier::external_body]
pub struct ExValidationError(ValidationError);

/// `ValidationError::new`: an error with the given code. Nothing of it is
/// read here.
pub assume_specification[ ValidationError::new ](code: &'static str) -> (error: ValidationError)
;

/// Fewest characters of an access code.
pub const ACCESS_CODE_MIN_LENGTH: usize = 8;

/// A rule that a field broke.
#[derive(Debug)]
pub struct FieldError {
    pub field: &'static str,
    pub message: &'static str,
}

/// Which page of a list is asked for.
#[derive(Debug)]
pub struct Pagination {
    pub current: u32,
    pub page_size: u32,
}

/// The page that is meant where a request names none.
pub fn default_current() -> (current: u32)
    ensures
        current == 1,
{
    1
}

/// The page size that is meant where a request names none.
pub fn default_page_size() -> (page_size: u32)
    ensures
        page_size == 10,
{
    10
}

/// Whether a page may hold this many items: 10, 20, 50 or 100.
pub open spec fn is_page_size(value: u32) -> bool {
    value == 10 || value == 20 || value == 50 || value == 100
}

/// Holds a page size to the rule: 10, 20, 50 and 100 pass, everything else
/// is an error.
pub fn validate_page_size(value: u32) -> (verdict: Result<(), ValidationError>)
    ensures
        verdict is Ok <==> is_page_size(value),
{
    match value {
        10 | 20 | 50 | 100 => Ok(()),
        _ => Err(ValidationError::new("invalid_page_size")),
    }
}

impl Pagination {
    /// Whether the request keeps the rules: pages count from 1, and the
    /// page size is one of those on offer.
    pub open spec fn is_valid(self) -> bool {
        self.current >= 1 && is_page_size(self.page_size)
    }

    /// The request for the first page in the usual size.
    pub fn new() -> (pagination: Self)
        ensures
            pagination.current == 1,
            pagination.page_size == 10,
            pagination.is_valid(),
    {
        Pagination { current: default_current(), page_size: default_page_size() }
    }

    /// Holds the request to the rules. The errors name, in the order of the
    /// fields, each field that broke its rule.
    pub fn validate(&self) -> (verdict: Result<(), Vec<FieldError>>)
        ensures
            verdict is Ok <==> self.is_valid(),
            verdict matches Err(errors) ==> {
                &&& errors@.len() == (if self.current >= 1 {
                    0int
                } else {
                    1int
                }) + (if is_page_size(self.page_size) {
                    0int
                } else {
                    1int
                })
                &&& self.current < 1 ==> errors@[0].field@ == "current"@ && errors@[0].message@
                    == "Invalid current"@
                &&& !is_page_size(self.page_size) ==> errors@.last().field@ == "page_size"@
                    && errors@.last().message@ == "Invalid pageSize"@
            },
    {
        let mut errors: Vec<FieldError> = Vec::new();
        if self.current < 1 {
            errors.push(FieldError { field: "current", message: "Invalid current" });
        }
        if validate_page_size(self.page_size).is_err() {
            errors.push(FieldError { field: "page_size", message: "Invalid pageSize" });
        }
        if errors.len() == 0 {
            Ok(())
        } else {
            Err(errors)
        }
    }
}

/// The access code that a peer presents to be let in.
#[derive(Debug)]
pub struct AccessCodeDto {
    pub code: String,
}

impl AccessCodeDto {
    /// Whether the code keeps the rule: at least eight characters.
    pub open spec fn is_valid(self) -> bool {
        self.code@.len() >= ACCESS_CODE_MIN_LENGTH
    }

    /// Holds the code to the rule.
    pub fn validate(&self) -> (verdict: Result<(), FieldError>)
        ensures
            verdict is Ok <==> self.is_valid(),
            verdict matches Err(error) ==> error.field@ == "code"@ && error.message@
                == "Invalid access code"@,
    {
        if self.code.as_str().unicode_len() >= ACCESS_CODE_MIN_LENGTH {
            Ok(())
        } else {
            Err(FieldError { field: "code", message: "Invalid access code" })
        }
    }
}

} // verus!
