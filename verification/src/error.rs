//! The failure taxonomy shared by every component.

use vstd::prelude::*;
use vstd::string::StringExecFns;

verus! {

/// Why a request could not be served.
#[derive(Debug)]
pub enum AppError {
    /// An invariant of the service itself was violated.
    Internal(String),
    /// The caller's input is malformed; never retried.
    Validation(String),
    /// An upstream service failed, answered with a non-success status or sent
    /// a body that could not be understood.
    ExternalApi(String),
    /// An upstream service refused the call for its rate.
    RateLimit,
    /// An upstream call exceeded its time bound.
    Timeout(String),
    /// The requested market or resource does not exist.
    NotFound(String),
}

/// The HTTP status that reports each kind of failure.
pub open spec fn spec_status_code(e: AppError) -> u16 {
    match e {
        AppError::Internal(_) => 500,
        AppError::Validation(_) => 400,
        AppError::ExternalApi(_) => 502,
        AppError::RateLimit => 429,
        AppError::Timeout(_) => 504,
        AppError::NotFound(_) => 404,
    }
}

/// The text a caller is shown in the error payload.
pub open spec fn spec_message(e: AppError) -> Seq<char> {
    match e {
        AppError::Internal(m) => m@,
        AppError::Validation(m) => m@,
        AppError::ExternalApi(m) => m@,
        AppError::RateLimit => "Rate limit exceeded"@,
        AppError::Timeout(m) => m@,
        AppError::NotFound(m) => m@,
    }
}

/// The heading that precedes the detail in the full description.
pub open spec fn spec_heading(e: AppError) -> Seq<char> {
    match e {
        AppError::Internal(_) => "Internal server error: "@,
        AppError::Validation(_) => "Validation error: "@,
        AppError::ExternalApi(_) => "External API error: "@,
        AppError::RateLimit => "Rate limit exceeded"@,
        AppError::Timeout(_) => "Timeout: "@,
        AppError::NotFound(_) => "Not found: "@,
    }
}

/// The full description: heading, then the detail where the kind has one.
pub open spec fn spec_description(e: AppError) -> Seq<char> {
    match e {
        AppError::RateLimit => spec_heading(e),
        _ => spec_heading(e) + spec_message(e),
    }
}

/// `result` is a validation error whose text is `reason`.
pub open spec fn refused_with<T>(result: Result<T, AppError>, reason: Seq<char>) -> bool {
    result matches Err(AppError::Validation(text)) && text@ == reason
}

impl AppError {
    /// The HTTP status that reports this failure.
    pub fn status_code(&self) -> (code: u16)
        ensures
            code == spec_status_code(*self),
    {
        match self {
            AppError::Internal(_) => 500,
            AppError::Validation(_) => 400,
            AppError::ExternalApi(_) => 502,
            AppError::RateLimit => 429,
            AppError::Timeout(_) => 504,
            AppError::NotFound(_) => 404,
        }
    }

    /// The text for the `error` field of the payload.
    pub fn message(&self) -> (text: String)
        ensures
            text@ == spec_message(*self),
    {
        match self {
            AppError::Internal(m) => m.clone(),
            AppError::Validation(m) => m.clone(),
            AppError::ExternalApi(m) => m.clone(),
            AppError::RateLimit => String::from_str("Rate limit exceeded"),
            AppError::Timeout(m) => m.clone(),
            AppError::NotFound(m) => m.clone(),
        }
    }

    /// The full description, as a log line would carry it.
    pub fn to_string(&self) -> (text: String)
        ensures
            text@ == spec_description(*self),
    {
        match self {
            AppError::Internal(m) => String::from_str("Internal server error: ").concat(m.as_str()),
            AppError::Validation(m) => String::from_str("Validation error: ").concat(m.as_str()),
            AppError::ExternalApi(m) => String::from_str("External API error: ").concat(m.as_str()),
            AppError::RateLimit => String::from_str("Rate limit exceeded"),
            AppError::Timeout(m) => String::from_str("Timeout: ").concat(m.as_str()),
            AppError::NotFound(m) => String::from_str("Not found: ").concat(m.as_str()),
        }
    }

    /// Whether another attempt at the same upstream call may follow this
    /// failure. Malformed input fails the same way every time.
    pub fn is_retryable(&self) -> (b: bool)
        ensures
            b == !(*self is Validation),
    {
        match self {
            AppError::Validation(_) => false,
            _ => true,
        }
    }
}

} // verus!
