//! Error types for integrations.

use vstd::prelude::*;
use crate::text::str_to_string;

verus! {

/// Integration errors.
#[derive(Debug)]
pub enum IntegrationError {
    /// HTTP request failed (the client's message).
    Http(String),
    /// API returned an error.
    Api(String),
    /// Rate limit exceeded.
    RateLimited(&'static str),
    /// API key required but not provided.
    ApiKeyRequired(&'static str),
    /// Invalid API key.
    InvalidApiKey(&'static str),
    /// Resource not found.
    NotFound(String),
    /// JSON parsing error (the parser's message).
    Json(String),
    /// Invalid input.
    InvalidInput(String),
    /// Service unavailable.
    ServiceUnavailable(String),
    /// Timeout.
    Timeout,
    /// Analysis in progress.
    AnalysisInProgress,
}

/// How an HTTP reply came back: its status code, and for a 200 the parsed
/// body (or the parser's message), for any other code the body text.
#[derive(Debug)]
pub enum HttpReply<T> {
    /// Status 200, the body parsed.
    Parsed(T),
    /// Status 200, the body did not parse.
    Unparsable(String),
    /// Another status, with the body text.
    Status(u16, String),
}

/// The error of a lookup reply whose status is not 200, for services that
/// answer 401 for a bad key, 404 for an unknown resource and 429 when
/// throttled.
pub open spec fn lookup_error(code: u16, body: Seq<char>, not_found: Seq<char>, e: IntegrationError) -> bool {
    if code == 401 {
        e is InvalidApiKey
    } else if code == 404 {
        e matches IntegrationError::NotFound(m) && m@ == not_found
    } else if code == 429 {
        e is RateLimited
    } else {
        e matches IntegrationError::Api(m) && m@ == body
    }
}

/// Maps a non-200 lookup status to its error (`service` names the service
/// in key and rate errors, `not_found` is the not-found message).
pub fn lookup_status_error(code: u16, body: String, service: &'static str, not_found: String) -> (r: IntegrationError)
    ensures
        lookup_error(code, body@, not_found@, r),
        r matches IntegrationError::InvalidApiKey(s) ==> s == service,
        r matches IntegrationError::RateLimited(s) ==> s == service,
{
    if code == 401 {
        IntegrationError::InvalidApiKey(service)
    } else if code == 404 {
        IntegrationError::NotFound(not_found)
    } else if code == 429 {
        IntegrationError::RateLimited(service)
    } else {
        IntegrationError::Api(body)
    }
}

/// `"prefix" + text`, a message naming its subject.
pub fn message_with(prefix: &str, text: &str) -> (r: String)
    ensures
        r@ == prefix@ + text@,
{
    let mut m = str_to_string(prefix);
    m.append(text);
    m
}

} // verus!
