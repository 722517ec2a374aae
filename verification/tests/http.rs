use turbocommerce::encoding::base64_encode;
use turbocommerce::http::{FetchClient, FetchError, Method, RequestBuilder, Response};

fn make_response(status: u16, body: &[u8]) -> Response {
    Response::new(status, Vec::new(), body.to_vec())
}

fn make_response_with_headers(status: u16, headers: Vec<(&str, &str)>, body: &[u8]) -> Response {
    let headers: Vec<(String, String)> = headers.into_iter().map(|(k, v)| (k.to_string(), v.to_string())).collect();
    Response::new(status, headers, body.to_vec())
}

#[test]
fn test_response_is_success() {
    assert!(make_response(200, b"").is_success());
    assert!(make_response(201, b"").is_success());
    assert!(make_response(299, b"").is_success());
    assert!(!make_response(199, b"").is_success());
    assert!(!make_response(300, b"").is_success());
}

#[test]
fn test_response_is_client_error() {
    assert!(make_response(400, b"").is_client_error());
    assert!(make_response(404, b"").is_client_error());
    assert!(make_response(499, b"").is_client_error());
    assert!(!make_response(399, b"").is_client_error());
    assert!(!make_response(500, b"").is_client_error());
}

#[test]
fn test_response_is_server_error() {
    assert!(make_response(500, b"").is_server_error());
    assert!(make_response(503, b"").is_server_error());
    assert!(make_response(599, b"").is_server_error());
    assert!(!make_response(499, b"").is_server_error());
    assert!(!make_response(600, b"").is_server_error());
}

#[test]
fn test_response_text() {
    let resp = make_response(200, b"Hello, World!");
    assert_eq!(resp.text().unwrap(), "Hello, World!");
}

#[test]
fn test_response_text_invalid_utf8() {
    let resp = make_response(200, &[0xff, 0xfe]);
    assert!(resp.text().is_err());
}

#[test]
fn invalid_utf8_error_message() {
    let resp = make_response(200, &[0xff]);
    match resp.text() {
        Err(FetchError::ParseError(m)) => {
            assert_eq!(m, "Invalid UTF-8: invalid utf-8 sequence of 1 bytes from index 0")
        }
        _ => panic!("expected a parse error"),
    }
}

#[test]
fn test_response_bytes() {
    let resp = make_response(200, &[1, 2, 3, 4]);
    assert_eq!(resp.bytes(), &[1, 2, 3, 4]);
}

#[test]
fn test_response_header() {
    let resp = make_response_with_headers(200, vec![("Content-Type", "application/json")], b"");
    assert_eq!(resp.header("Content-Type"), Some("application/json"));
}

#[test]
fn test_response_header_case_insensitive() {
    let resp = make_response_with_headers(200, vec![("Content-Type", "text/html")], b"");
    assert_eq!(resp.header("content-type"), Some("text/html"));
    assert_eq!(resp.header("CONTENT-TYPE"), Some("text/html"));
}

#[test]
fn test_response_header_missing() {
    let resp = make_response(200, b"");
    assert_eq!(resp.header("X-Missing"), None);
}

#[test]
fn test_response_content_type() {
    let resp = make_response_with_headers(200, vec![("Content-Type", "application/json")], b"");
    assert_eq!(resp.content_type(), Some("application/json"));
}

#[test]
fn test_response_content_length() {
    let resp = make_response_with_headers(200, vec![("Content-Length", "42")], b"");
    assert_eq!(resp.content_length(), Some(42));
}

#[test]
fn test_response_content_length_invalid() {
    let resp = make_response_with_headers(200, vec![("Content-Length", "not-a-number")], b"");
    assert_eq!(resp.content_length(), None);
}

#[test]
fn content_length_forms() {
    let plus = make_response_with_headers(200, vec![("content-length", "+7")], b"");
    assert_eq!(plus.content_length(), Some(7));
    let huge = make_response_with_headers(200, vec![("Content-Length", "99999999999999999999999")], b"");
    assert_eq!(huge.content_length(), None);
    assert_eq!(make_response(200, b"").content_length(), None);
}

#[test]
fn test_response_error_for_status_success() {
    let resp = make_response(200, b"OK");
    assert!(resp.error_for_status().is_ok());
}

#[test]
fn test_response_error_for_status_client_error() {
    let resp = make_response(404, b"Not Found");
    let result = resp.error_for_status();
    assert!(result.is_err());
}

#[test]
fn test_response_error_for_status_server_error() {
    let resp = make_response(500, b"Internal Server Error");
    let result = resp.error_for_status();
    assert!(result.is_err());
}

#[test]
fn error_for_status_carries_status_and_body() {
    match make_response(404, b"Not Found").error_for_status() {
        Err(e @ FetchError::HttpError { .. }) => assert_eq!(e.message(), "HTTP 404: Not Found"),
        _ => panic!("expected an HTTP error"),
    }
    match make_response(502, &[0xff]).error_for_status() {
        Err(FetchError::HttpError { status, message }) => {
            assert_eq!(status, 502);
            assert_eq!(message, "Unknown error");
        }
        _ => panic!("expected an HTTP error"),
    }
}

#[test]
fn test_response_clone() {
    let resp = make_response(200, b"data");
    let cloned = resp.clone();
    assert_eq!(cloned.status, 200);
    assert_eq!(cloned.bytes(), b"data");
}

#[test]
fn fetch_error_messages() {
    assert_eq!(FetchError::Timeout.message(), "Request timed out");
    assert_eq!(FetchError::InvalidUrl("x".to_string()).message(), "Invalid URL: x");
    let parse_failure = serde_json::from_str::<serde_json::Value>("{").unwrap_err();
    assert!(matches!(FetchError::from(parse_failure), FetchError::JsonError(_)));
}

#[test]
fn request_builder_headers_replace_by_name() {
    let r = RequestBuilder::new(Method::Post, "https://x")
        .header("A", "1")
        .header("B", "2")
        .header("A", "3")
        .text("hi");
    assert_eq!(
        r.headers,
        vec![
            ("A".to_string(), "3".to_string()),
            ("B".to_string(), "2".to_string()),
            ("Content-Type".to_string(), "text/plain".to_string())
        ]
    );
    assert_eq!(r.body, Some(b"hi".to_vec()));
    let r = r.content_type("text/html").text("x");
    assert_eq!(r.headers[2].1, "text/html");
    let r = RequestBuilder::new(Method::Get, "u").headers(vec![("K".to_string(), "v".to_string())]).accept("*/*");
    assert_eq!(r.headers.len(), 2);
    assert_eq!(Method::Options.as_str(), "OPTIONS");
    let r = RequestBuilder::new(Method::Put, "u").json_body(b"{}".to_vec());
    assert_eq!(r.headers[0], ("Content-Type".to_string(), "application/json".to_string()));
}

#[test]
fn request_builder_auth_headers() {
    let r = RequestBuilder::new(Method::Get, "u").basic_auth("Aladdin", Some("open sesame"));
    assert_eq!(r.headers[0].1, "Basic QWxhZGRpbjpvcGVuIHNlc2FtZQ==");
    let r = RequestBuilder::new(Method::Get, "u").basic_auth("user", None);
    assert_eq!(r.headers[0].1, "Basic dXNlcjo=");
    let r = r.bearer_auth("tok");
    assert_eq!(r.headers, vec![("Authorization".to_string(), "Bearer tok".to_string())]);
}

#[test]
fn base64_standard_vectors() {
    assert_eq!(base64_encode(b""), "");
    assert_eq!(base64_encode(b"f"), "Zg==");
    assert_eq!(base64_encode(b"fo"), "Zm8=");
    assert_eq!(base64_encode(b"foo"), "Zm9v");
    assert_eq!(base64_encode(b"foobar"), "Zm9vYmFy");
    assert_eq!(base64_encode(&[0xfb, 0xff]), "+/8=");
}

#[test]
fn client_resolves_urls_and_sends_default_headers() {
    let client = FetchClient::new()
        .with_base_url("https://api.example.com//")
        .with_default_header("X-Key", "1")
        .with_default_header("X-Key", "2");
    let resp = client.get("/products").header("Accept", "json").send().unwrap();
    assert_eq!(resp.status, 200);
    assert!(resp.headers.is_empty());
    assert!(resp.body.is_empty());
    let _ = client.post("http://other/x").text("t").bearer_auth("a").basic_auth("u", None).body(vec![1]);
    let _ = FetchClient::default().delete("x").json_body(vec![]);
    let _ = client.put("y");
    let _ = client.patch("z");
}
