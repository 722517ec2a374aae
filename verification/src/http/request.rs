//! HTTP request building.
use vstd::prelude::*;
use crate::encoding::{base64_encode, base64_of};
use crate::http::headers::{insert_header, insert_header_default, pair_views, with_header, with_header_default, with_headers};

verus! {

/// HTTP methods.
#[derive(Debug, Clone, Copy, PartialEq, Eq, Structural)]
pub enum Method {
    Get,
    Post,
    Put,
    Patch,
    Delete,
    Head,
    Options,
}

/// The name of an HTTP method as it appears in a request line.
pub open spec fn method_name(m: Method) -> Seq<char> {
    match m {
        Method::Get => "GET"@,
        Method::Post => "POST"@,
        Method::Put => "PUT"@,
        Method::Patch => "PATCH"@,
        Method::Delete => "DELETE"@,
        Method::Head => "HEAD"@,
        Method::Options => "OPTIONS"@,
    }
}

impl Method {
    /// The method's name (e.g. "GET").
    pub fn as_str(&self) -> (r: &'static str)
        ensures
            r@ == method_name(*self),
    {
        match self {
            Method::Get => "GET",
            Method::Post => "POST",
            Method::Put => "PUT",
            Method::Patch => "PATCH",
            Method::Delete => "DELETE",
            Method::Head => "HEAD",
            Method::Options => "OPTIONS",
        }
    }
}

/// The user name and password of basic authentication, joined by a colon
/// (an absent password counts as empty).
pub open spec fn basic_credentials(username: Seq<char>, password: Option<Seq<char>>) -> Seq<char> {
    match password {
        Some(p) => username + ":"@ + p,
        None => username + ":"@,
    }
}

/// The Authorization value of basic authentication: "Basic " and the base64 of
/// the UTF-8 bytes of the credentials.
pub open spec fn basic_auth_value(username: Seq<char>, password: Option<Seq<char>>) -> Seq<char> {
    "Basic "@ + base64_of(vstd::utf8::encode_utf8(basic_credentials(username, password)))
}

/// A builder for constructing HTTP requests.
#[derive(Debug, Clone)]
pub struct RequestBuilder {
    /// The request method.
    pub method: Method,
    /// The request URL.
    pub url: String,
    /// The request headers; each name occurs once.
    pub headers: Vec<(String, String)>,
    /// The request body.
    pub body: Option<Vec<u8>>,
}

impl RequestBuilder {
    /// A request for a method and URL, with no headers and no body.
    pub fn new(method: Method, url: &str) -> (r: Self)
        ensures
            r.method == method,
            r.url@ == url@,
            r.headers@.len() == 0,
            r.body is None,
    {
        RequestBuilder { method, url: url.to_string(), headers: Vec::new(), body: None }
    }

    /// Set a header (replacing the value of one with the same name).
    pub fn header(self, key: &str, value: &str) -> (r: Self)
        ensures
            pair_views(r.headers@) == with_header(pair_views(self.headers@), key@, value@),
            r.method == self.method,
            r.url == self.url,
            r.body == self.body,
    {
        let mut s = self;
        insert_header(&mut s.headers, key.to_string(), value.to_string());
        s
    }

    /// Set several headers, in order.
    pub fn headers(self, headers: Vec<(String, String)>) -> (r: Self)
        ensures
            pair_views(r.headers@) == with_headers(pair_views(self.headers@), pair_views(headers@)),
            r.method == self.method,
            r.url == self.url,
            r.body == self.body,
    {
        let mut s = self;
        let mut i: usize = 0;
        while i < headers.len()
            invariant
                i <= headers@.len(),
                pair_views(s.headers@) == with_headers(
                    pair_views(self.headers@),
                    pair_views(headers@.take(i as int)),
                ),
                s.method == self.method,
                s.url == self.url,
                s.body == self.body,
            decreases headers@.len() - i,
        {
            assert(pair_views(headers@.take(i + 1)).drop_last() =~= pair_views(headers@.take(i as int)));
            let k = headers[i].0.clone();
            let v = headers[i].1.clone();
            insert_header(&mut s.headers, k, v);
            i = i + 1;
        }
        assert(headers@.take(i as int) =~= headers@);
        s
    }

    /// Set the request body to raw bytes.
    pub fn body(self, body: Vec<u8>) -> (r: Self)
        ensures
            r == (RequestBuilder { body: Some(body), ..self }),
    {
        let mut s = self;
        s.body = Some(body);
        s
    }

    /// Set the request body to the UTF-8 bytes of a text; the Content-Type
    /// becomes "text/plain" unless one is set.
    pub fn text(self, text: &str) -> (r: Self)
        ensures
            pair_views(r.headers@) == with_header_default(
                pair_views(self.headers@),
                "Content-Type"@,
                "text/plain"@,
            ),
            r.body matches Some(b) && b@ == vstd::utf8::encode_utf8(text@),
            r.method == self.method,
            r.url == self.url,
    {
        let mut s = self;
        insert_header_default(&mut s.headers, "Content-Type".to_string(), "text/plain".to_string());
        s.body = Some(vstd::slice::slice_to_vec(text.as_bytes()));
        s
    }

    /// Set the request body to serialized JSON; the Content-Type becomes "application/json".
    pub fn json_body(self, json: Vec<u8>) -> (r: Self)
        ensures
            pair_views(r.headers@) == with_header(
                pair_views(self.headers@),
                "Content-Type"@,
                "application/json"@,
            ),
            r.body == Some(json),
            r.method == self.method,
            r.url == self.url,
    {
        let mut s = self;
        insert_header(&mut s.headers, "Content-Type".to_string(), "application/json".to_string());
        s.body = Some(json);
        s
    }

    /// Authorize with a bearer token.
    pub fn bearer_auth(self, token: &str) -> (r: Self)
        ensures
            pair_views(r.headers@) == with_header(
                pair_views(self.headers@),
                "Authorization"@,
                "Bearer "@ + token@,
            ),
            r.method == self.method,
            r.url == self.url,
            r.body == self.body,
    {
        let mut v = "Bearer ".to_string();
        v.append(token);
        self.header("Authorization", v.as_str())
    }

    /// Authorize with a user name and an optional password (basic authentication).
    pub fn basic_auth(self, username: &str, password: Option<&str>) -> (r: Self)
        ensures
            pair_views(r.headers@) == with_header(
                pair_views(self.headers@),
                "Authorization"@,
                basic_auth_value(
                    username@,
                    match password {
                        Some(p) => Some(p@),
                        None => None,
                    },
                ),
            ),
            r.method == self.method,
            r.url == self.url,
            r.body == self.body,
    {
        let mut credentials = username.to_string();
        credentials.append(":");
        match password {
            Some(p) => credentials.append(p),
            None => {},
        }
        let encoded = base64_encode(credentials.as_str().as_bytes());
        let mut v = "Basic ".to_string();
        v.append(encoded.as_str());
        proof {
            if password is None {
                assert(credentials@ =~= basic_credentials(username@, None));
            }
        }
        self.header("Authorization", v.as_str())
    }

    /// Set the Accept header.
    pub fn accept(self, content_type: &str) -> (r: Self)
        ensures
            pair_views(r.headers@) == with_header(pair_views(self.headers@), "Accept"@, content_type@),
            r.method == self.method,
            r.url == self.url,
            r.body == self.body,
    {
        self.header("Accept", content_type)
    }

    /// Set the Content-Type header.
    pub fn content_type(self, content_type: &str) -> (r: Self)
        ensures
            pair_views(r.headers@) == with_header(
                pair_views(self.headers@),
                "Content-Type"@,
                content_type@,
            ),
            r.method == self.method,
            r.url == self.url,
            r.body == self.body,
    {
        self.header("Content-Type", content_type)
    }
}

} // verus!
