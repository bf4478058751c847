//! How the answers of upstream services are judged, and the failures they
//! are turned into. Every such failure is an external one.

use crate::error::AppError;
use vstd::prelude::*;
use vstd::string::StringExecFns;

verus! {

/// Whether an HTTP status reports success: the codes from 200 to 299.
pub fn is_success(code: u16) -> (ok: bool)
    ensures
        ok == (200 <= code < 300),
{
    200 <= code && code < 300
}

/// The authorization header value for `api_key`.
pub fn bearer(api_key: &str) -> (value: String)
    ensures
        value@ == "Bearer "@ + api_key@,
{
    String::from_str("Bearer ").concat(api_key)
}

/// The failure of a request that got no response from `service`.
pub fn request_failed(service: &str, detail: &str) -> (error: AppError)
    ensures
        error matches AppError::ExternalApi(text) && text@ == service@ + " API request failed: "@
            + detail@,
{
    AppError::ExternalApi(
        String::from_str(service).concat(" API request failed: ").concat(detail),
    )
}

/// What is reported of a body that could not be read.
pub open spec fn body_or_unknown(body: Option<String>) -> Seq<char> {
    match body {
        Some(text) => text@,
        None => "Unknown error"@,
    }
}

/// The failure of a request that `service` answered with a status other
/// than success. `status` is the status as it is shown, `body` what came with
/// it, if that could be read.
pub fn status_failure(service: &str, status: &str, body: Option<String>) -> (error: AppError)
    ensures
        error matches AppError::ExternalApi(text) && text@ == service@ + " API returned "@
            + status@ + ": "@ + body_or_unknown(body),
{
    let head: String = String::from_str(service).concat(" API returned ").concat(status).concat(
        ": ",
    );
    match body {
        Some(text) => AppError::ExternalApi(head.concat(text.as_str())),
        None => AppError::ExternalApi(head.concat("Unknown error")),
    }
}

/// The failure of a response whose body is not what `what` sends.
pub fn unreadable_response(what: &str, detail: &str) -> (error: AppError)
    ensures
        error matches AppError::ExternalApi(text) && text@ == "Failed to parse "@ + what@
            + " response: "@ + detail@,
{
    AppError::ExternalApi(
        String::from_str("Failed to parse ").concat(what).concat(" response: ").concat(detail),
    )
}

/// The failure of a completion whose content is not an analysis.
pub fn analysis_rejected(detail: &str) -> (error: AppError)
    ensures
        error matches AppError::ExternalApi(text) && text@ == "Failed to parse AI analysis JSON: "@
            + detail@,
{
    AppError::ExternalApi(String::from_str("Failed to parse AI analysis JSON: ").concat(detail))
}

/// The content of the first choice of a completion; a completion without
/// choices is a failure of `service`.
pub fn first_content(service: &str, choices: Vec<String>) -> (result: Result<String, AppError>)
    ensures
        choices@.len() > 0 ==> result == Ok::<String, AppError>(choices@[0]),
        choices@.len() == 0 ==> (result matches Err(AppError::ExternalApi(text)) && text@
            == "No content in "@ + service@ + " response"@),
{
    let mut choices = choices;
    if choices.len() > 0 {
        Ok(choices.swap_remove(0))
    } else {
        Err(
            AppError::ExternalApi(
                String::from_str("No content in ").concat(service).concat(" response"),
            ),
        )
    }
}

} // verus!
