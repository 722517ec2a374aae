//! Errors of the application framework.
use vstd::prelude::*;
use crate::platform::io_error_text;

verus! {

/// Errors that can occur in the framework.
#[derive(Debug, Clone)]
pub enum TurboError {
    /// Route not found.
    RouteNotFound(String),
    /// Server function error.
    ServerFnError(String),
    /// Streaming error.
    StreamError(String),
    /// Configuration error.
    ConfigError(String),
    /// Render error.
    RenderError(String),
}

/// The message of a framework error: a heading for its kind, then its detail.
pub open spec fn turbo_error_message(e: TurboError) -> Seq<char> {
    match e {
        TurboError::RouteNotFound(m) => "Route not found: "@ + m@,
        TurboError::ServerFnError(m) => "Server function error: "@ + m@,
        TurboError::StreamError(m) => "Streaming error: "@ + m@,
        TurboError::ConfigError(m) => "Configuration error: "@ + m@,
        TurboError::RenderError(m) => "Render error: "@ + m@,
    }
}

impl TurboError {
    /// The error message (what the error displays as).
    pub fn message(&self) -> (r: String)
        ensures
            r@ == turbo_error_message(*self),
    {
        let (head, detail) = match self {
            TurboError::RouteNotFound(m) => ("Route not found: ", m),
            TurboError::ServerFnError(m) => ("Server function error: ", m),
            TurboError::StreamError(m) => ("Streaming error: ", m),
            TurboError::ConfigError(m) => ("Configuration error: ", m),
            TurboError::RenderError(m) => ("Render error: ", m),
        };
        let mut s = head.to_string();
        s.append(detail.as_str());
        s
    }
}


impl From<std::io::Error> for TurboError {
    /// A streaming error carrying the I/O error's message.
    fn from(e: std::io::Error) -> (r: Self)
        ensures
            r is StreamError,
    {
        TurboError::StreamError(io_error_text(&e))
    }
}

impl vstd::std_specs::convert::FromSpecImpl<std::io::Error> for TurboError {
    open spec fn obeys_from_spec() -> bool {
        false
    }

    closed spec fn from_spec(e: std::io::Error) -> TurboError {
        arbitrary()
    }
}

} // verus!
