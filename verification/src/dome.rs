//! Finding the market that a public address points at: which platform lists
//! it, under which identifier, and where the aggregator serves it.

use crate::error::{refused_with, AppError};
use crate::text::{contains_text, starts_with_text, text_after_prefix, text_contains};
use crate::types::Platform;
use crate::upstream::bearer;
use vstd::prelude::*;
use vstd::string::StringExecFns;

verus! {

/// What is read of a parsed address: its host, where it has one, and its
/// path.
#[derive(Debug)]
pub struct Address {
    pub host: Option<String>,
    pub path: String,
}

/// Why `url::Url::parse` refuses a text, as the error describes itself, or
/// `None` where it accepts the text.
pub uninterp spec fn url_parse_failure(text: Seq<char>) -> Option<Seq<char>>;

/// What `url::Url::host_str` returns for the address parsed from a text.
pub uninterp spec fn url_host(text: Seq<char>) -> Option<Seq<char>>;

/// What `url::Url::path` returns for the address parsed from a text.
pub uninterp spec fn url_path(text: Seq<char>) -> Seq<char>;

/// What `str::to_lowercase` returns.
pub uninterp spec fn lowercased(text: Seq<char>) -> Seq<char>;

/// The text of an optional string.
pub open spec fn optional_text(value: Option<String>) -> Option<Seq<char>> {
    match value {
        Some(text) => Some(text@),
        None => None,
    }
}

/// Parses `text` with `url::Url::parse` and reads the host (`host_str`) and
/// the path (`path`) of the result; a refusal is returned as the text by
/// which `url::ParseError` describes itself.
///
/// Nothing is claimed of what the parser accepts or finds: the results are
/// only given their names.
#[verifier::external_body]
fn parse_address(text: &str) -> (result: Result<Address, String>)
    ensures
        match result {
            Ok(address) => url_parse_failure(text@) is None && optional_text(address.host)
                == url_host(text@) && address.path@ == url_path(text@),
            Err(reason) => url_parse_failure(text@) == Some(reason@),
        },
{
    match url::Url::parse(text) {
        Ok(parsed) => Ok(
            Address {
                host: parsed.host_str().map(|host| host.to_string()),
                path: parsed.path().to_string(),
            },
        ),
        Err(error) => Err(error.to_string()),
    }
}

/// `str::to_lowercase`: the text with every character in lower case.
#[verifier::external_body]
fn to_lowercase(text: &str) -> (lower: String)
    ensures
        lower@ == lowercased(text@),
{
    text.to_lowercase()
}

/// The host of an address, empty where it has none.
pub open spec fn host_or_empty(host: Option<Seq<char>>) -> Seq<char> {
    match host {
        Some(name) => name,
        None => Seq::empty(),
    }
}

/// The identifier that an address carries: what follows `/event/` on a host
/// that names polymarket, else what follows `/trade/` on a host that names
/// kalshi.
pub open spec fn spec_identifier(host: Option<Seq<char>>, path: Seq<char>) -> Option<Seq<char>> {
    let name = host_or_empty(host);
    if contains_text(name, "polymarket"@) && starts_with_text(path, "/event/"@) {
        Some(path.subrange("/event/"@.len() as int, path.len() as int))
    } else if contains_text(name, "kalshi"@) && starts_with_text(path, "/trade/"@) {
        Some(path.subrange("/trade/"@.len() as int, path.len() as int))
    } else {
        None
    }
}

/// The platform that a host in lower case names; polymarket is tried first.
pub open spec fn spec_platform(lower_host: Seq<char>) -> Option<Platform> {
    if contains_text(lower_host, "polymarket"@) {
        Some(Platform::Polymarket)
    } else if contains_text(lower_host, "kalshi"@) {
        Some(Platform::Kalshi)
    } else {
        None
    }
}

/// The segment of the aggregator's path that stands for a platform.
pub open spec fn platform_segment(platform: Platform) -> Seq<char> {
    match platform {
        Platform::Polymarket => "polymarket"@,
        Platform::Kalshi => "kalshi"@,
    }
}

/// Where the aggregator serves a market.
pub open spec fn spec_endpoint(platform: Platform, identifier: Seq<char>) -> Seq<char> {
    "https://api.dome.xyz/v1"@ + "/markets/"@ + platform_segment(platform) + "/"@ + identifier
}

/// The identifier that a parsed address carries, or a validation error that
/// quotes `url`.
pub fn identifier_of(address: &Address, url: &str) -> (result: Result<String, AppError>)
    ensures
        match spec_identifier(optional_text(address.host), address.path@) {
            Some(identifier) => result matches Ok(found) && found@ == identifier,
            None => refused_with(result, "Could not extract identifier from URL: "@ + url@),
        },
{
    let host: &str = match &address.host {
        Some(name) => name.as_str(),
        None => "",
    };
    proof {
        reveal_strlit("");
        assert(host@ =~= host_or_empty(optional_text(address.host)));
    }
    if text_contains(host, "polymarket") {
        if let Some(slug) = text_after_prefix(address.path.as_str(), "/event/") {
            return Ok(String::from_str(slug));
        }
    }
    if text_contains(host, "kalshi") {
        if let Some(ticker) = text_after_prefix(address.path.as_str(), "/trade/") {
            return Ok(String::from_str(ticker));
        }
    }
    Err(
        AppError::Validation(
            String::from_str("Could not extract identifier from URL: ").concat(url),
        ),
    )
}

/// The platform that a host in lower case names, or a validation error that
/// quotes `url`.
pub fn platform_of(lower_host: &str, url: &str) -> (result: Result<Platform, AppError>)
    ensures
        match spec_platform(lower_host@) {
            Some(platform) => result == Ok::<Platform, AppError>(platform),
            None => refused_with(result, "Unsupported platform in URL: "@ + url@),
        },
{
    if text_contains(lower_host, "polymarket") {
        Ok(Platform::Polymarket)
    } else if text_contains(lower_host, "kalshi") {
        Ok(Platform::Kalshi)
    } else {
        Err(AppError::Validation(String::from_str("Unsupported platform in URL: ").concat(url)))
    }
}

/// Where the aggregator serves the market `identifier` of `platform`.
pub fn endpoint_for(platform: Platform, identifier: &str) -> (endpoint: String)
    ensures
        endpoint@ == spec_endpoint(platform, identifier@),
{
    let base: String = String::from_str("https://api.dome.xyz/v1").concat("/markets/");
    let with_platform: String = match platform {
        Platform::Polymarket => base.concat("polymarket"),
        Platform::Kalshi => base.concat("kalshi"),
    };
    with_platform.concat("/").concat(identifier)
}

/// The result of looking for an identifier in `url`, over what the parser
/// makes of it.
pub open spec fn spec_extract_identifier(url: Seq<char>) -> Result<Seq<char>, Seq<char>> {
    match url_parse_failure(url) {
        Some(reason) => Err("Invalid URL: "@ + reason),
        None => match spec_identifier(url_host(url), url_path(url)) {
            Some(identifier) => Ok(identifier),
            None => Err("Could not extract identifier from URL: "@ + url),
        },
    }
}

/// The result of looking for a platform in `url`, over what the parser makes
/// of it.
pub open spec fn spec_detect_platform(url: Seq<char>) -> Result<Platform, Seq<char>> {
    match url_parse_failure(url) {
        Some(reason) => Err("Invalid URL: "@ + reason),
        None => match spec_platform(lowercased(host_or_empty(url_host(url)))) {
            Some(platform) => Ok(platform),
            None => Err("Unsupported platform in URL: "@ + url),
        },
    }
}

/// The platform and the aggregator's address for `url`; the identifier is
/// looked for first.
pub open spec fn spec_market_endpoint(url: Seq<char>) -> Result<(Platform, Seq<char>), Seq<char>> {
    match spec_extract_identifier(url) {
        Err(reason) => Err(reason),
        Ok(identifier) => match spec_detect_platform(url) {
            Err(reason) => Err(reason),
            Ok(platform) => Ok((platform, spec_endpoint(platform, identifier))),
        },
    }
}

/// A client of the market aggregator.
#[derive(Debug)]
pub struct DomeClient {
    pub api_key: String,
}

impl DomeClient {
    /// A client that authorizes itself with `api_key`.
    pub fn new(api_key: String) -> (client: DomeClient)
        ensures
            client.api_key == api_key,
    {
        DomeClient { api_key }
    }

    /// The authorization header value of every request.
    pub fn authorization(&self) -> (value: String)
        ensures
            value@ == "Bearer "@ + self.api_key@,
    {
        bearer(self.api_key.as_str())
    }

    /// The slug or ticker that `url` carries. An address that cannot be
    /// parsed, or that carries neither, is a validation error.
    pub fn extract_identifier(&self, url: &str) -> (result: Result<String, AppError>)
        ensures
            match spec_extract_identifier(url@) {
                Ok(identifier) => result matches Ok(found) && found@ == identifier,
                Err(reason) => refused_with(result, reason),
            },
    {
        match parse_address(url) {
            Ok(address) => identifier_of(&address, url),
            Err(reason) => Err(
                AppError::Validation(String::from_str("Invalid URL: ").concat(reason.as_str())),
            ),
        }
    }

    /// The platform that lists the market behind `url`. An address that
    /// cannot be parsed, or whose host names no known platform, is a
    /// validation error.
    pub fn detect_platform(&self, url: &str) -> (result: Result<Platform, AppError>)
        ensures
            match spec_detect_platform(url@) {
                Ok(platform) => result == Ok::<Platform, AppError>(platform),
                Err(reason) => refused_with(result, reason),
            },
    {
        match parse_address(url) {
            Ok(address) => {
                let host: &str = match &address.host {
                    Some(name) => name.as_str(),
                    None => "",
                };
                proof {
                    reveal_strlit("");
                    assert(host@ =~= host_or_empty(optional_text(address.host)));
                }
                let lower: String = to_lowercase(host);
                platform_of(lower.as_str(), url)
            },
            Err(reason) => Err(
                AppError::Validation(String::from_str("Invalid URL: ").concat(reason.as_str())),
            ),
        }
    }

    /// The platform of the market behind `url` and the address at which the
    /// aggregator serves it.
    pub fn market_endpoint(&self, url: &str) -> (result: Result<(Platform, String), AppError>)
        ensures
            match spec_market_endpoint(url@) {
                Ok((platform, endpoint)) => result matches Ok((p, e)) && p == platform && e@
                    == endpoint,
                Err(reason) => refused_with(result, reason),
            },
    {
        let identifier: String = match self.extract_identifier(url) {
            Ok(identifier) => identifier,
            Err(error) => {
                return Err(error);
            },
        };
        let platform: Platform = match self.detect_platform(url) {
            Ok(platform) => platform,
            Err(error) => {
                return Err(error);
            },
        };
        Ok((platform, endpoint_for(platform, identifier.as_str())))
    }
}

} // verus!
