use hyper::header::{HeaderValue, ACCEPT_ENCODING, COOKIE, HOST, IF_MODIFIED_SINCE, IF_NONE_MATCH};
use hyper::HeaderMap;
use roxy::client::{sanitize_headers, HttpClient, Transport};
use roxy::error::BackendError;
use roxy::message::{Method, RequestHead, ResponseHead, UriParts, Version};
use roxy::request::RoxyRequest;
use roxy::response::Body;

fn head_with(headers: HeaderMap) -> RequestHead {
    RequestHead {
        method: Method::Get,
        uri: UriParts { scheme: None, authority: None, path_and_query: Some("/".to_string()) },
        version: Version::Http11,
        headers,
    }
}

#[test]
fn two_cookie_headers_become_one() {
    let mut headers = HeaderMap::new();
    headers.append(COOKIE, HeaderValue::from_static("a=1"));
    headers.append(COOKIE, HeaderValue::from_static("b=2"));
    assert!(sanitize_headers(&mut headers));
    let cookies: Vec<&HeaderValue> = headers.get_all(COOKIE).iter().collect();
    assert_eq!(cookies.len(), 1);
    assert_eq!(cookies[0].as_bytes(), b"a=1; b=2");
}

#[test]
fn session_and_theme_cookies_are_folded_in_order() {
    let mut headers = HeaderMap::new();
    headers.append(COOKIE, HeaderValue::from_static("sid=abc"));
    headers.append("x-other", HeaderValue::from_static("1"));
    headers.append(COOKIE, HeaderValue::from_static("theme=dark"));
    assert!(sanitize_headers(&mut headers));
    let cookies: Vec<&HeaderValue> = headers.get_all(COOKIE).iter().collect();
    assert_eq!(cookies.len(), 1);
    assert_eq!(cookies[0].as_bytes(), b"sid=abc; theme=dark");
    assert_eq!(headers.get("x-other").unwrap().as_bytes(), b"1");
    assert_eq!(headers.len(), 2);
}

#[test]
fn three_cookies_are_joined_with_two_separators() {
    let mut headers = HeaderMap::new();
    headers.append(COOKIE, HeaderValue::from_static("a=1"));
    headers.append(COOKIE, HeaderValue::from_static("b=2"));
    headers.append(COOKIE, HeaderValue::from_static("c=3"));
    assert!(sanitize_headers(&mut headers));
    assert_eq!(headers.get(COOKIE).unwrap().as_bytes(), b"a=1; b=2; c=3");
    assert_eq!(headers.get_all(COOKIE).iter().count(), 1);
}

#[test]
fn single_cookie_is_left_as_it_is() {
    let mut headers = HeaderMap::new();
    headers.append(COOKIE, HeaderValue::from_static("only=1"));
    assert!(sanitize_headers(&mut headers));
    assert_eq!(headers.get(COOKIE).unwrap().as_bytes(), b"only=1");
    assert_eq!(headers.len(), 1);
}

#[test]
fn cookie_bytes_outside_ascii_survive_folding() {
    let mut headers = HeaderMap::new();
    headers.append(COOKIE, HeaderValue::from_bytes(b"a=\xfa").unwrap());
    headers.append(COOKIE, HeaderValue::from_bytes(b"b=\xfb").unwrap());
    assert!(sanitize_headers(&mut headers));
    assert_eq!(headers.get(COOKIE).unwrap().as_bytes(), b"a=\xfa; b=\xfb");
}

#[test]
fn host_header_is_removed() {
    let mut headers = HeaderMap::new();
    headers.append(HOST, HeaderValue::from_static("example.com"));
    headers.append(HOST, HeaderValue::from_static("second.example.com"));
    headers.append("x-custom-header", HeaderValue::from_static("v"));
    assert!(sanitize_headers(&mut headers));
    assert!(!headers.contains_key(HOST));
    assert_eq!(headers.get("x-custom-header").unwrap().as_bytes(), b"v");
    assert_eq!(headers.len(), 1);
}

#[test]
fn headers_without_host_and_cookie_are_untouched() {
    let mut headers = HeaderMap::new();
    headers.append("accept", HeaderValue::from_static("text/html"));
    headers.append("accept", HeaderValue::from_static("text/plain"));
    let before = headers.clone();
    assert!(sanitize_headers(&mut headers));
    assert_eq!(headers, before);
}

#[test]
fn empty_headers_stay_empty() {
    let mut headers = HeaderMap::new();
    assert!(sanitize_headers(&mut headers));
    assert!(headers.is_empty());
}

#[test]
fn sanitizing_twice_changes_nothing_more() {
    let mut headers = HeaderMap::new();
    headers.append(HOST, HeaderValue::from_static("example.com"));
    headers.append(COOKIE, HeaderValue::from_static("a=1"));
    headers.append(COOKIE, HeaderValue::from_static("b=2"));
    assert!(sanitize_headers(&mut headers));
    let once = headers.clone();
    assert!(sanitize_headers(&mut headers));
    assert_eq!(headers, once);
}

#[test]
fn plain_client_uses_http() {
    let client = HttpClient::new(false, None).unwrap();
    assert!(client.tls_config().is_none());
    assert_eq!(client.transport(), Transport::Http);
}

#[test]
fn secure_client_without_roots_fails_setup() {
    let client = HttpClient::new(true, None);
    assert!(matches!(client, Err(BackendError::TlsSetupError)));
}

#[test]
fn wire_options_keep_header_case() {
    let client = HttpClient::new(false, None).unwrap();
    let options = client.wire_options();
    assert!(options.preserve_header_case);
    assert!(options.title_case_headers);
}

#[test]
fn sanitize_request_keeps_method_target_and_version() {
    let client = HttpClient::new(false, None).unwrap();
    let mut headers = HeaderMap::new();
    headers.append(HOST, HeaderValue::from_static("example.com"));
    let (head, folded) = client.sanitize_request(head_with(headers));
    assert!(folded);
    assert_eq!(head.method, Method::Get);
    assert_eq!(head.version, Version::Http11);
    assert_eq!(head.uri.path_and_query.as_deref(), Some("/"));
    assert!(head.headers.is_empty());
}

#[test]
fn send_with_client_passes_id_and_body_through() {
    let client = HttpClient::new(false, None).unwrap();
    let mut headers = HeaderMap::new();
    headers.append(HOST, HeaderValue::from_static("example.com"));
    headers.append(COOKIE, HeaderValue::from_static("a=1"));
    headers.append(COOKIE, HeaderValue::from_static("b=2"));
    let request = RoxyRequest::new(head_with(headers), "payload", 41);
    let outbound = client.send_with_client(request);
    assert_eq!(outbound.request_id, 41);
    assert_eq!(outbound.body, "payload");
    assert!(outbound.folded);
    assert!(!outbound.head.headers.contains_key(HOST));
    assert_eq!(outbound.head.headers.get(COOKIE).unwrap().as_bytes(), b"a=1; b=2");
}

#[test]
fn upstream_response_is_wrapped_with_the_request_id() {
    let head = ResponseHead { status: 200, version: Version::Http11, headers: HeaderMap::new() };
    let response = HttpClient::response_for(Some((head, "hi")), 7);
    assert_eq!(response.request_id(), 7);
    assert_eq!(response.status_code(), 200);
    let (_, body) = response.into_response();
    assert!(matches!(body, Body::Streaming("hi")));
}

#[test]
fn refused_connection_becomes_error_response() {
    let response = HttpClient::response_for::<&str>(None, 99);
    assert_eq!(response.request_id(), 99);
    assert_eq!(response.status_code(), 500);
    let (head, body) = response.into_response();
    assert!(head.headers.is_empty());
    match body {
        Body::Buffered(bytes) => assert!(bytes.starts_with(b"Error rendering response")),
        _ => panic!("the error response has a buffered body"),
    }
}

#[test]
fn forwarding_drops_cache_and_encoding_headers() {
    let mut headers = HeaderMap::new();
    headers.append(ACCEPT_ENCODING, HeaderValue::from_static("gzip"));
    headers.append(IF_MODIFIED_SINCE, HeaderValue::from_static("Sat, 29 Oct 1994 19:43:31 GMT"));
    headers.append(IF_NONE_MATCH, HeaderValue::from_static("\"abc\""));
    headers.append(IF_NONE_MATCH, HeaderValue::from_static("\"def\""));
    headers.append("accept", HeaderValue::from_static("*/*"));
    let request = RoxyRequest::new(head_with(headers), (), 3).forward_request();
    assert_eq!(request.request_id(), 3);
    let headers = &request.head().headers;
    assert!(!headers.contains_key(ACCEPT_ENCODING));
    assert!(!headers.contains_key(IF_MODIFIED_SINCE));
    assert!(!headers.contains_key(IF_NONE_MATCH));
    assert_eq!(headers.get("accept").unwrap().as_bytes(), b"*/*");
    assert_eq!(headers.len(), 1);
}

#[test]
fn many_cookies_among_many_headers_are_folded() {
    let mut headers = HeaderMap::new();
    for i in 0..200 {
        let name = hyper::header::HeaderName::from_bytes(format!("x-header-{}", i).as_bytes())
            .unwrap();
        headers.append(name, HeaderValue::from_static("v"));
    }
    let mut expected = Vec::new();
    for i in 0..50 {
        let value = format!("c{}={}", i, i);
        if i > 0 {
            expected.extend_from_slice(b"; ");
        }
        expected.extend_from_slice(value.as_bytes());
        headers.append(COOKIE, HeaderValue::from_bytes(value.as_bytes()).unwrap());
    }
    assert!(sanitize_headers(&mut headers));
    assert_eq!(headers.get_all(COOKIE).iter().count(), 1);
    assert_eq!(headers.get(COOKIE).unwrap().as_bytes(), expected.as_slice());
    assert_eq!(headers.keys_len(), 201);
}
