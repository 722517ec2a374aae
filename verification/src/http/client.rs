//! The HTTP client: a base URL and default headers applied to each request.
use vstd::prelude::*;
use crate::http::error::FetchError;
use crate::http::headers::{insert_header, lemma_with_header_distinct, names_distinct, pair_views, with_header};
use crate::http::request::{basic_auth_value, Method, RequestBuilder};
use crate::http::response::Response;
use crate::platform::{push_char};
use crate::text::chars_of;
use crate::text::starts_with;

verus! {

/// The text without its trailing occurrences of a character.
pub open spec fn trim_end(s: Seq<char>, c: char) -> Seq<char>
    decreases s.len(),
{
    if s.len() > 0 && s.last() == c {
        trim_end(s.drop_last(), c)
    } else {
        s
    }
}

/// The URL a request goes to: an absolute `http://` or `https://` URL as given;
/// otherwise, with a base URL, the base without trailing slashes followed by the URL.
pub open spec fn resolve_url(base: Option<Seq<char>>, url: Seq<char>) -> Seq<char> {
    match base {
        Some(b) => if "http://"@.is_prefix_of(url) || "https://"@.is_prefix_of(url) {
            url
        } else {
            trim_end(b, '/') + url
        },
        None => url,
    }
}

/// The text without its trailing occurrences of `c` (as `str::trim_end_matches` with a character).
fn trim_end_char(s: &str, c: char) -> (r: String)
    ensures
        r@ == trim_end(s@, c),
{
    let chars = chars_of(s);
    let mut end: usize = chars.len();
    assert(chars@.take(end as int) =~= s@);
    while end > 0 && chars[end - 1] == c
        invariant
            end <= chars@.len(),
            chars@ == s@,
            trim_end(chars@.take(end as int), c) == trim_end(s@, c),
        decreases end,
    {
        assert(chars@.take(end as int).drop_last() =~= chars@.take(end - 1));
        end = end - 1;
    }
    let mut out = String::new();
    let mut i: usize = 0;
    while i < end
        invariant
            i <= end <= chars@.len(),
            out@ =~= chars@.take(i as int),
        decreases end - i,
    {
        push_char(&mut out, chars[i]);
        i = i + 1;
    }
    assert(trim_end(chars@.take(end as int), c) == chars@.take(end as int));
    out
}

/// HTTP client for making outbound requests.
pub struct FetchClient {
    base_url: Option<String>,
    default_headers: Vec<(String, String)>,
}

impl FetchClient {
    /// No default header name occurs twice.
    #[verifier::type_invariant]
    spec fn headers_distinct(self) -> bool {
        names_distinct(pair_views(self.default_headers@))
    }

    /// The base URL, if any.
    pub closed spec fn spec_base_url(&self) -> Option<Seq<char>> {
        match self.base_url {
            Some(b) => Some(b@),
            None => None,
        }
    }

    /// The headers added to every request.
    pub closed spec fn spec_default_headers(&self) -> Seq<(Seq<char>, Seq<char>)> {
        pair_views(self.default_headers@)
    }

    /// A client with no base URL and no default headers.
    pub fn new() -> (r: Self)
        ensures
            r.spec_base_url() is None,
            r.spec_default_headers().len() == 0,
    {
        FetchClient { base_url: None, default_headers: Vec::new() }
    }

    /// Prepend a base URL to relative request URLs.
    pub fn with_base_url(self, base_url: &str) -> (r: Self)
        ensures
            r.spec_base_url() == Some(base_url@),
            r.spec_default_headers() == self.spec_default_headers(),
    {
        proof {
            use_type_invariant(&self);
        }
        FetchClient { base_url: Some(base_url.to_string()), default_headers: self.default_headers }
    }

    /// Add a header to every request (replacing a default of the same name).
    pub fn with_default_header(self, key: &str, value: &str) -> (r: Self)
        ensures
            r.spec_base_url() == self.spec_base_url(),
            r.spec_default_headers() == with_header(self.spec_default_headers(), key@, value@),
    {
        proof {
            use_type_invariant(&self);
            lemma_with_header_distinct(pair_views(self.default_headers@), key@, value@);
        }
        let mut headers = self.default_headers;
        insert_header(&mut headers, key.to_string(), value.to_string());
        FetchClient { base_url: self.base_url, default_headers: headers }
    }

    /// A GET request.
    pub fn get(&self, url: &str) -> (r: ClientRequestBuilder)
        ensures
            r.spec_request() == self.request_spec(Method::Get, url@),
    {
        self.request(Method::Get, url)
    }

    /// A POST request.
    pub fn post(&self, url: &str) -> (r: ClientRequestBuilder)
        ensures
            r.spec_request() == self.request_spec(Method::Post, url@),
    {
        self.request(Method::Post, url)
    }

    /// A PUT request.
    pub fn put(&self, url: &str) -> (r: ClientRequestBuilder)
        ensures
            r.spec_request() == self.request_spec(Method::Put, url@),
    {
        self.request(Method::Put, url)
    }

    /// A PATCH request.
    pub fn patch(&self, url: &str) -> (r: ClientRequestBuilder)
        ensures
            r.spec_request() == self.request_spec(Method::Patch, url@),
    {
        self.request(Method::Patch, url)
    }

    /// A DELETE request.
    pub fn delete(&self, url: &str) -> (r: ClientRequestBuilder)
        ensures
            r.spec_request() == self.request_spec(Method::Delete, url@),
    {
        self.request(Method::Delete, url)
    }

    /// What a request built by this client holds: the method, the resolved URL,
    /// the default headers and no body.
    pub open spec fn request_spec(&self, method: Method, url: Seq<char>) -> (Method, Seq<char>, Seq<
        (Seq<char>, Seq<char>),
    >, Option<Seq<u8>>) {
        (method, resolve_url(self.spec_base_url(), url), self.spec_default_headers(), None)
    }

    /// A request with a method: the URL resolved against the base URL, and the
    /// default headers.
    pub fn request(&self, method: Method, url: &str) -> (r: ClientRequestBuilder)
        ensures
            r.spec_request() == self.request_spec(method, url@),
    {
        proof {
            use_type_invariant(self);
        }
        let full_url: String = match &self.base_url {
            Some(base) => {
                if starts_with(url, "http://") || starts_with(url, "https://") {
                    url.to_string()
                } else {
                    let mut u = trim_end_char(base.as_str(), '/');
                    u.append(url);
                    u
                }
            },
            None => url.to_string(),
        };
        let mut builder = RequestBuilder::new(method, full_url.as_str());
        let ghost dv = pair_views(self.default_headers@);
        let mut i: usize = 0;
        while i < self.default_headers.len()
            invariant
                i <= self.default_headers@.len(),
                dv == pair_views(self.default_headers@),
                names_distinct(dv),
                pair_views(builder.headers@) == dv.take(i as int),
                builder.method == method,
                builder.url@ == full_url@,
                builder.body is None,
            decreases self.default_headers@.len() - i,
        {
            let ghost before = pair_views(builder.headers@);
            proof {
                assert forall|j: int| 0 <= j < before.len() implies !crate::http::headers::named(
                    dv[i as int].0,
                )(#[trigger] before[j]) by {
                    assert(before[j] == dv[j]);
                }
                crate::seq_util::lemma_first_index_none(before, crate::http::headers::named(dv[i as int].0));
            }
            builder = builder.header(self.default_headers[i].0.as_str(), self.default_headers[i].1.as_str());
            assert(dv.take(i + 1) =~= dv.take(i as int).push(dv[i as int]));
            i = i + 1;
        }
        assert(dv.take(i as int) =~= dv);
        ClientRequestBuilder { builder }
    }
}

impl Default for FetchClient {
    fn default() -> (r: Self)
        ensures
            r.spec_base_url() is None,
            r.spec_default_headers().len() == 0,
    {
        FetchClient::new()
    }
}

/// A request builder bound to a client.
pub struct ClientRequestBuilder {
    builder: RequestBuilder,
}

/// The method, URL, headers and body of a request.
pub open spec fn request_parts(b: RequestBuilder) -> (Method, Seq<char>, Seq<(Seq<char>, Seq<char>)>, Option<
    Seq<u8>,
>) {
    (
        b.method,
        b.url@,
        pair_views(b.headers@),
        match b.body {
            Some(v) => Some(v@),
            None => None,
        },
    )
}

impl ClientRequestBuilder {
    /// The method, URL, headers and body of the request being built.
    pub closed spec fn spec_request(&self) -> (Method, Seq<char>, Seq<(Seq<char>, Seq<char>)>, Option<
        Seq<u8>,
    >) {
        request_parts(self.builder)
    }

    /// Set a header.
    pub fn header(self, key: &str, value: &str) -> (r: Self)
        ensures
            r.spec_request() == (
                self.spec_request().0,
                self.spec_request().1,
                with_header(self.spec_request().2, key@, value@),
                self.spec_request().3,
            ),
    {
        ClientRequestBuilder { builder: self.builder.header(key, value) }
    }

    /// Set the body to raw bytes.
    pub fn body(self, body: Vec<u8>) -> (r: Self)
        ensures
            r.spec_request() == (
                self.spec_request().0,
                self.spec_request().1,
                self.spec_request().2,
                Some(body@),
            ),
    {
        ClientRequestBuilder { builder: self.builder.body(body) }
    }

    /// Set the body to a text (Content-Type "text/plain" unless one is set).
    pub fn text(self, text: &str) -> (r: Self)
        ensures
            r.spec_request() == (
                self.spec_request().0,
                self.spec_request().1,
                crate::http::headers::with_header_default(
                    self.spec_request().2,
                    "Content-Type"@,
                    "text/plain"@,
                ),
                Some(vstd::utf8::encode_utf8(text@)),
            ),
    {
        ClientRequestBuilder { builder: self.builder.text(text) }
    }

    /// Set the body to serialized JSON (Content-Type "application/json").
    pub fn json_body(self, json: Vec<u8>) -> (r: Self)
        ensures
            r.spec_request() == (
                self.spec_request().0,
                self.spec_request().1,
                with_header(self.spec_request().2, "Content-Type"@, "application/json"@),
                Some(json@),
            ),
    {
        ClientRequestBuilder { builder: self.builder.json_body(json) }
    }

    /// Authorize with a bearer token.
    pub fn bearer_auth(self, token: &str) -> (r: Self)
        ensures
            r.spec_request() == (
                self.spec_request().0,
                self.spec_request().1,
                with_header(self.spec_request().2, "Authorization"@, "Bearer "@ + token@),
                self.spec_request().3,
            ),
    {
        ClientRequestBuilder { builder: self.builder.bearer_auth(token) }
    }

    /// Authorize with a user name and an optional password.
    pub fn basic_auth(self, username: &str, password: Option<&str>) -> (r: Self)
        ensures
            r.spec_request() == (
                self.spec_request().0,
                self.spec_request().1,
                with_header(
                    self.spec_request().2,
                    "Authorization"@,
                    basic_auth_value(
                        username@,
                        match password {
                            Some(p) => Some(p@),
                            None => None,
                        },
                    ),
                ),
                self.spec_request().3,
            ),
    {
        ClientRequestBuilder { builder: self.builder.basic_auth(username, password) }
    }

    /// Send the request. This build has no network transport: every request is
    /// answered with an empty 200 response.
    pub fn send(self) -> (r: Result<Response, FetchError>)
        ensures
            r matches Ok(resp) && resp.status == 200 && resp.headers@.len() == 0 && resp.body@.len()
                == 0,
    {
        Ok(Response::new(200, Vec::new(), Vec::new()))
    }
}

} // verus!
