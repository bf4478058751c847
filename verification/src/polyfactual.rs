//! The research service: what may be asked of it and where.

use crate::error::{refused_with, AppError};
use crate::types::{Citation, PolyfactualResearchRequest};
use crate::upstream::bearer;
use vstd::prelude::*;
use vstd::string::StringExecFns;

verus! {

/// The longest query the service takes, in bytes.
pub const MAX_QUERY_LENGTH: usize = 1000;

/// A client of the research service.
#[derive(Debug)]
pub struct PolyfactualClient {
    pub api_key: String,
}

impl PolyfactualResearchRequest {
    /// Refuses a request without a query.
    pub fn validate(&self) -> (result: Result<(), AppError>)
        ensures
            self.query@.len() > 0 ==> result is Ok,
            self.query@.len() == 0 ==> refused_with(result, "Query is required"@),
    {
        if self.query.as_str().is_empty() {
            Err(AppError::Validation(String::from_str("Query is required")))
        } else {
            Ok(())
        }
    }
}

impl PolyfactualClient {
    /// A client that authorizes itself with `api_key`.
    pub fn new(api_key: String) -> (client: PolyfactualClient)
        ensures
            client.api_key == api_key,
    {
        PolyfactualClient { api_key }
    }

    /// The authorization header value of every request.
    pub fn authorization(&self) -> (value: String)
        ensures
            value@ == "Bearer "@ + self.api_key@,
    {
        bearer(self.api_key.as_str())
    }

    /// Where the service takes queries.
    pub fn endpoint(&self) -> (url: &'static str)
        ensures
            url@ == "https://api.polyfactual.com/v1/research"@,
    {
        "https://api.polyfactual.com/v1/research"
    }

    /// Refuses a query of more than [`MAX_QUERY_LENGTH`] bytes.
    pub fn check_query(&self, query: &str) -> (result: Result<(), AppError>)
        ensures
            query.len() <= MAX_QUERY_LENGTH ==> result is Ok,
            query.len() > MAX_QUERY_LENGTH ==> refused_with(
                result,
                "Query exceeds maximum length of 1000 characters"@,
            ),
    {
        if query.len() > MAX_QUERY_LENGTH {
            Err(
                AppError::Validation(
                    String::from_str("Query exceeds maximum length of 1000 characters"),
                ),
            )
        } else {
            Ok(())
        }
    }

    /// A citation of the answer; one that comes without a relevance has
    /// none.
    pub fn citation(&self, source: String, url: Option<String>, relevance: Option<i64>) -> (cited:
        Citation)
        ensures
            cited.source == source,
            cited.url == url,
            cited.relevance == match relevance {
                Some(value) => value,
                None => 0,
            },
    {
        let relevance: i64 = match relevance {
            Some(value) => value,
            None => 0,
        };
        Citation { source, url, relevance }
    }
}

} // verus!
