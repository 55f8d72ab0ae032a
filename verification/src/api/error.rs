//! Error responses of the API layer and the mapping of domain failures to
//! them.

use vstd::prelude::*;
use crate::errors::concat3;
use crate::text::{contains_text, str_contains};

verus! {

/// An error response sent to the frontend.
#[derive(Debug)]
pub struct ApiError {
    /// Error code for programmatic handling.
    pub code: String,
    /// Human-readable message.
    pub message: String,
    /// Optional details for debugging.
    pub details: Option<String>,
}

/// The error codes of API responses.
#[derive(Debug, Clone, Copy, PartialEq, Eq, Structural)]
pub enum ErrorCode {
    InvalidInput,
    NotFound,
    Unauthorized,
    Conflict,
    Internal,
    Unavailable,
    RateLimited,
    Validation,
}

/// The text of an error code.
pub open spec fn code_text(c: ErrorCode) -> Seq<char> {
    match c {
        ErrorCode::InvalidInput => "INVALID_INPUT"@,
        ErrorCode::NotFound => "NOT_FOUND"@,
        ErrorCode::Unauthorized => "UNAUTHORIZED"@,
        ErrorCode::Conflict => "CONFLICT"@,
        ErrorCode::Internal => "INTERNAL_ERROR"@,
        ErrorCode::Unavailable => "SERVICE_UNAVAILABLE"@,
        ErrorCode::RateLimited => "RATE_LIMITED"@,
        ErrorCode::Validation => "VALIDATION_ERROR"@,
    }
}

impl ErrorCode {
    /// The text of this code.
    pub fn as_str(&self) -> (s: &'static str)
        ensures
            s@ == code_text(*self),
    {
        match self {
            ErrorCode::InvalidInput => "INVALID_INPUT",
            ErrorCode::NotFound => "NOT_FOUND",
            ErrorCode::Unauthorized => "UNAUTHORIZED",
            ErrorCode::Conflict => "CONFLICT",
            ErrorCode::Internal => "INTERNAL_ERROR",
            ErrorCode::Unavailable => "SERVICE_UNAVAILABLE",
            ErrorCode::RateLimited => "RATE_LIMITED",
            ErrorCode::Validation => "VALIDATION_ERROR",
        }
    }
}

impl ApiError {
    /// The error as one line: the code, a colon and the message.
    pub fn to_string(&self) -> (s: String)
        ensures
            s@ == self.code@ + ": "@ + self.message@,
    {
        concat3(self.code.as_str(), ": ", self.message.as_str())
    }
}

/// The code under which a domain failure with message `m` is reported:
/// the first of these rules whose words occur in the message decides.
pub open spec fn domain_error_code(m: Seq<char>) -> ErrorCode {
    if contains_text(m, "not found"@) {
        ErrorCode::NotFound
    } else if contains_text(m, "unauthorized"@) || contains_text(m, "forbidden"@) {
        ErrorCode::Unauthorized
    } else if contains_text(m, "invalid"@) || contains_text(m, "validation"@) {
        ErrorCode::InvalidInput
    } else if contains_text(m, "conflict"@) || contains_text(m, "already exists"@) {
        ErrorCode::Conflict
    } else {
        ErrorCode::Internal
    }
}

/// The message shown to users for a mapped domain failure.
pub open spec fn domain_error_text(c: ErrorCode) -> Seq<char> {
    match c {
        ErrorCode::NotFound => "The requested resource was not found"@,
        ErrorCode::Unauthorized => "You don't have permission to perform this action"@,
        ErrorCode::InvalidInput => "Invalid input parameters"@,
        ErrorCode::Conflict => "This operation conflicts with existing data"@,
        _ => "An unexpected error occurred"@,
    }
}

/// Whether `e` is the response for a failure described by `detail`,
/// reported under `c`.
pub open spec fn is_response(e: ApiError, c: ErrorCode, detail: Seq<char>) -> bool {
    &&& e.code@ == code_text(c)
    &&& e.message@ == domain_error_text(c)
    &&& e.details matches Some(d) && d@ == detail
}

fn response(c: ErrorCode, detail: String) -> (e: ApiError)
    ensures
        is_response(e, c, detail@),
{
    let message = match c {
        ErrorCode::NotFound => String::from_str("The requested resource was not found"),
        ErrorCode::Unauthorized => String::from_str("You don't have permission to perform this action"),
        ErrorCode::InvalidInput => String::from_str("Invalid input parameters"),
        ErrorCode::Conflict => String::from_str("This operation conflicts with existing data"),
        _ => String::from_str("An unexpected error occurred"),
    };
    ApiError { code: String::from_str(c.as_str()), message, details: Some(detail) }
}

/// The response for an unexpected failure whose text is `details`.
pub fn to_api_error(details: &str) -> (e: ApiError)
    ensures
        is_response(e, ErrorCode::Internal, details@),
{
    response(ErrorCode::Internal, String::from_str(details))
}

/// The response for a domain failure with message `message`: its code is
/// chosen by the words in the message, and the message is kept as details.
pub fn map_domain_error(message: String) -> (e: ApiError)
    ensures
        is_response(e, domain_error_code(message@), message@),
{
    let m = message.as_str();
    let code = if str_contains(m, "not found") {
        ErrorCode::NotFound
    } else if str_contains(m, "unauthorized") || str_contains(m, "forbidden") {
        ErrorCode::Unauthorized
    } else if str_contains(m, "invalid") || str_contains(m, "validation") {
        ErrorCode::InvalidInput
    } else if str_contains(m, "conflict") || str_contains(m, "already exists") {
        ErrorCode::Conflict
    } else {
        ErrorCode::Internal
    };
    response(code, message)
}

/// A domain result as an API result: values pass through, failure messages
/// are mapped by `map_domain_error`.
pub fn map_result<T>(result: Result<T, String>) -> (r: Result<T, ApiError>)
    ensures
        result matches Ok(v) ==> r == Ok::<T, ApiError>(v),
        result matches Err(m) ==> (r matches Err(e) && is_response(e, domain_error_code(m@), m@)),
{
    match result {
        Ok(v) => Ok(v),
        Err(m) => Err(map_domain_error(m)),
    }
}

} // verus!
