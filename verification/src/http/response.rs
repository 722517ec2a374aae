//! HTTP responses.
use vstd::prelude::*;
use crate::http::error::FetchError;
use crate::http::headers::pair_views;
use crate::platform::{spec_to_lowercase, string_from_utf8, to_lowercase, utf8_error_message};
use crate::text::chars_of;
use crate::seq_util::{first_index, is_first, lemma_first_index_is, lemma_first_index_none};
use crate::text::{parse_unsigned, parse_unsigned_chars, str_eq};

verus! {

/// Whether a header pair's name matches a name, ignoring case.
pub open spec fn name_matches(key: Seq<char>) -> spec_fn((Seq<char>, Seq<char>)) -> bool {
    |p: (Seq<char>, Seq<char>)| spec_to_lowercase(p.0) == spec_to_lowercase(key)
}

/// The value of the first header whose name matches, ignoring case.
pub open spec fn header_lookup(h: Seq<(Seq<char>, Seq<char>)>, key: Seq<char>) -> Option<Seq<char>> {
    match first_index(h, name_matches(key)) {
        Some(i) => Some(h[i].1),
        None => None,
    }
}

/// The view of an optional string slice.
pub open spec fn opt_str(s: Option<&str>) -> Option<Seq<char>> {
    match s {
        Some(v) => Some(v@),
        None => None,
    }
}

/// The Content-Length a header value announces: an unsigned decimal number that fits a `usize`.
pub open spec fn content_length_of(v: Option<Seq<char>>) -> Option<nat> {
    match v {
        Some(t) => parse_unsigned(t, usize::MAX as nat),
        None => None,
    }
}

/// An HTTP response.
#[derive(Debug, Clone)]
pub struct Response {
    /// The HTTP status code.
    pub status: u16,
    /// The response headers.
    pub headers: Vec<(String, String)>,
    /// The response body.
    pub body: Vec<u8>,
}

impl Response {
    /// A response with this status, headers and body.
    pub fn new(status: u16, headers: Vec<(String, String)>, body: Vec<u8>) -> (r: Self)
        ensures
            r.status == status,
            r.headers == headers,
            r.body == body,
    {
        Response { status, headers, body }
    }

    /// Whether the status is a success (2xx).
    pub fn is_success(&self) -> (r: bool)
        ensures
            r == (200 <= self.status < 300),
    {
        200 <= self.status && self.status < 300
    }

    /// Whether the status is a client error (4xx).
    pub fn is_client_error(&self) -> (r: bool)
        ensures
            r == (400 <= self.status < 500),
    {
        400 <= self.status && self.status < 500
    }

    /// Whether the status is a server error (5xx).
    pub fn is_server_error(&self) -> (r: bool)
        ensures
            r == (500 <= self.status < 600),
    {
        500 <= self.status && self.status < 600
    }

    /// The body decoded as UTF-8 text; invalid UTF-8 gives a parse error with
    /// the decoder's message.
    pub fn text(&self) -> (r: Result<String, FetchError>)
        ensures
            r is Ok <==> vstd::utf8::valid_utf8(self.body@),
            r matches Ok(s) ==> s@ == vstd::utf8::decode_utf8(self.body@),
            r matches Err(e) ==> e matches FetchError::ParseError(m) && m@ == "Invalid UTF-8: "@
                + utf8_error_message(self.body@),
    {
        match string_from_utf8(self.body.clone()) {
            Ok(s) => Ok(s),
            Err(m) => {
                let mut msg = "Invalid UTF-8: ".to_string();
                msg.append(m.as_str());
                Err(FetchError::ParseError(msg))
            },
        }
    }

    /// The raw body.
    pub fn bytes(&self) -> (r: &[u8])
        ensures
            r@ == self.body@,
    {
        self.body.as_slice()
    }

    /// The value of the first header whose name matches `key`, ignoring case.
    pub fn header(&self, key: &str) -> (r: Option<&str>)
        ensures
            opt_str(r) == header_lookup(pair_views(self.headers@), key@),
    {
        let ghost hv = pair_views(self.headers@);
        let key_lower = to_lowercase(key);
        let mut i: usize = 0;
        while i < self.headers.len()
            invariant
                i <= self.headers@.len(),
                hv == pair_views(self.headers@),
                key_lower@ == spec_to_lowercase(key@),
                forall|j: int| 0 <= j < i ==> !name_matches(key@)(#[trigger] hv[j]),
            decreases self.headers@.len() - i,
        {
            let name_lower = to_lowercase(self.headers[i].0.as_str());
            if str_eq(name_lower.as_str(), key_lower.as_str()) {
                proof {
                    assert(is_first(hv, name_matches(key@), i as int));
                    lemma_first_index_is(hv, name_matches(key@), i as int);
                }
                return Some(self.headers[i].1.as_str());
            }
            i = i + 1;
        }
        proof {
            lemma_first_index_none(hv, name_matches(key@));
        }
        None
    }

    /// The Content-Type header.
    pub fn content_type(&self) -> (r: Option<&str>)
        ensures
            opt_str(r) == header_lookup(pair_views(self.headers@), "Content-Type"@),
    {
        self.header("Content-Type")
    }

    /// The Content-Length header as a number; `None` when it is absent or not a
    /// number that fits a `usize`.
    pub fn content_length(&self) -> (r: Option<usize>)
        ensures
            match content_length_of(header_lookup(pair_views(self.headers@), "Content-Length"@)) {
                Some(n) => r == Some(n as usize),
                None => r is None,
            },
    {
        match self.header("Content-Length") {
            Some(v) => {
                let chars = chars_of(v);
                match parse_unsigned_chars(&chars, usize::MAX as u64) {
                    Some(n) => Some(n as usize),
                    None => None,
                }
            },
            None => None,
        }
    }

    /// The response itself for a success status; otherwise an HTTP error with
    /// the status and the body text ("Unknown error" when it is not UTF-8).
    pub fn error_for_status(self) -> (r: Result<Self, FetchError>)
        ensures
            200 <= self.status < 300 ==> r == Ok::<Response, FetchError>(self),
            !(200 <= self.status < 300) ==> (r matches Err(FetchError::HttpError { status, message })
                && status == self.status && message@ == if vstd::utf8::valid_utf8(self.body@) {
                vstd::utf8::decode_utf8(self.body@)
            } else {
                "Unknown error"@
            }),
    {
        if self.is_success() {
            Ok(self)
        } else {
            let message = match self.text() {
                Ok(t) => t,
                Err(_) => "Unknown error".to_string(),
            };
            Err(FetchError::HttpError { status: self.status, message })
        }
    }
}

} // verus!
