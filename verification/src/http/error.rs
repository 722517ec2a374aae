//! Errors of the HTTP client.
use vstd::prelude::*;
use crate::platform::json_error_text;
use crate::text::{dec_digits, dec_string};

verus! {

/// Errors that can occur when making HTTP requests.
#[derive(Debug, Clone)]
pub enum FetchError {
    /// Failed to send the request.
    RequestError(String),
    /// Invalid URL.
    InvalidUrl(String),
    /// HTTP error response.
    HttpError { status: u16, message: String },
    /// Failed to parse response body.
    ParseError(String),
    /// Request timeout.
    Timeout,
    /// JSON serialization error.
    JsonError(String),
}

/// The message of a fetch error.
pub open spec fn fetch_error_message(e: FetchError) -> Seq<char> {
    match e {
        FetchError::RequestError(m) => "Request failed: "@ + m@,
        FetchError::InvalidUrl(m) => "Invalid URL: "@ + m@,
        FetchError::HttpError { status, message } => "HTTP "@ + dec_digits(status as nat) + ": "@
            + message@,
        FetchError::ParseError(m) => "Failed to parse response: "@ + m@,
        FetchError::Timeout => "Request timed out"@,
        FetchError::JsonError(m) => "JSON error: "@ + m@,
    }
}

impl FetchError {
    /// The error message (what the error displays as).
    pub fn message(&self) -> (r: String)
        ensures
            r@ == fetch_error_message(*self),
    {
        match self {
            FetchError::RequestError(m) => {
                let mut s = "Request failed: ".to_string();
                s.append(m.as_str());
                s
            },
            FetchError::InvalidUrl(m) => {
                let mut s = "Invalid URL: ".to_string();
                s.append(m.as_str());
                s
            },
            FetchError::HttpError { status, message } => {
                let mut s = "HTTP ".to_string();
                s.append(dec_string(*status as u64).as_str());
                s.append(": ");
                s.append(message.as_str());
                s
            },
            FetchError::ParseError(m) => {
                let mut s = "Failed to parse response: ".to_string();
                s.append(m.as_str());
                s
            },
            FetchError::Timeout => "Request timed out".to_string(),
            FetchError::JsonError(m) => {
                let mut s = "JSON error: ".to_string();
                s.append(m.as_str());
                s
            },
        }
    }
}

impl From<serde_json::Error> for FetchError {
    /// A JSON error carrying the message of `serde_json`'s error.
    fn from(e: serde_json::Error) -> (r: Self)
        ensures
            r is JsonError,
    {
        FetchError::JsonError(json_error_text(&e))
    }
}

impl vstd::std_specs::convert::FromSpecImpl<serde_json::Error> for FetchError {
    open spec fn obeys_from_spec() -> bool {
        false
    }

    closed spec fn from_spec(e: serde_json::Error) -> FetchError {
        arbitrary()
    }
}

} // verus!
