use hyper::header::{HeaderValue, HOST};
use hyper::HeaderMap;
use roxy::error::BackendError;
use roxy::ids::RequestIdCounter;
use roxy::message::{Method, RequestHead, ResponseHead, Scheme, UriParts, Version};
use roxy::request::RoxyRequest;
use roxy::response::{decode_chunk, Body, Frame, RoxyResponse, ERROR_BODY};

fn request_head(path: Option<&str>, headers: HeaderMap) -> RequestHead {
    RequestHead {
        method: Method::Get,
        uri: UriParts {
            scheme: None,
            authority: None,
            path_and_query: path.map(|p| p.to_string()),
        },
        version: Version::Http11,
        headers,
    }
}

fn ok_head() -> ResponseHead {
    ResponseHead { status: 200, version: Version::Http11, headers: HeaderMap::new() }
}

#[test]
fn identifiers_start_at_zero_and_are_dense() {
    let mut counter = RequestIdCounter::new();
    assert_eq!(counter.next_id(), 0);
    assert_eq!(counter.next_id(), 1);
    assert_eq!(counter.next_id(), 2);
}

#[test]
fn a_thousand_identifiers_are_pairwise_distinct() {
    let mut counter = RequestIdCounter::new();
    let mut seen = Vec::new();
    for _ in 0..1000 {
        let id = counter.next_id();
        assert!(!seen.contains(&id));
        seen.push(id);
    }
    assert_eq!(seen.len(), 1000);
}

#[test]
fn requests_entering_the_proxy_get_successive_identifiers() {
    let mut counter = RequestIdCounter::new();
    let first = RoxyRequest::ingress(request_head(Some("/a"), HeaderMap::new()), (), &mut counter);
    let second = RoxyRequest::ingress(request_head(Some("/b"), HeaderMap::new()), (), &mut counter);
    assert_eq!(first.request_id(), 0);
    assert_eq!(second.request_id(), 1);
    assert_eq!(second.uri().path_and_query.as_deref(), Some("/b"));
    assert_eq!(counter.next_id(), 2);
}

#[test]
fn request_envelope_keeps_what_it_was_given() {
    let request = RoxyRequest::new(request_head(Some("/x"), HeaderMap::new()), vec![1u8, 2], 12);
    assert_eq!(request.request_id(), 12);
    assert_eq!(*request.method(), Method::Get);
    assert_eq!(request.uri().path_and_query.as_deref(), Some("/x"));
    let (id, head, body) = request.deconstruct();
    assert_eq!(id, 12);
    assert_eq!(head.version, Version::Http11);
    assert_eq!(body, vec![1u8, 2]);
}

#[test]
fn response_carries_the_id_of_its_request() {
    let mut counter = RequestIdCounter::new();
    counter.next_id();
    let id = counter.next_id();
    let request = RoxyRequest::new(request_head(Some("/"), HeaderMap::new()), (), id);
    let response = RoxyResponse::new(ok_head(), (), request.request_id());
    assert_eq!(response.request_id(), 1);
}

#[test]
fn error_response_is_a_500_with_the_fixed_body() {
    let response = RoxyResponse::<()>::error(5);
    assert_eq!(response.request_id(), 5);
    assert_eq!(response.status_code(), 500);
    assert_eq!(response.head().version, Version::Http11);
    let (head, body) = response.into_response();
    assert!(head.headers.is_empty());
    match body {
        Body::Buffered(bytes) => {
            assert_eq!(
                bytes,
                b"Error rendering response. See Debug logs for more information".to_vec()
            );
            assert_eq!(bytes, ERROR_BODY.as_bytes().to_vec());
        }
        _ => panic!("the error response has a buffered body"),
    }
}

#[test]
fn status_is_readable_under_both_names() {
    let head = ResponseHead { status: 404, version: Version::Http11, headers: HeaderMap::new() };
    let response = RoxyResponse::new(head, (), 1);
    assert_eq!(response.status_code(), 404);
    assert_eq!(response.method(), 404);
}

#[test]
fn empty_response_is_a_200_without_body() {
    let response = RoxyResponse::<()>::empty(8);
    assert_eq!(response.request_id(), 8);
    assert_eq!(response.status_code(), 200);
    let (head, body) = response.into_response();
    assert!(head.headers.is_empty());
    assert!(matches!(body, Body::Empty));
}

#[test]
fn forwarded_outcome_without_response_is_a_proxy_request_error() {
    let outcome = RoxyResponse::<()>::forwarded(None, 1);
    assert!(matches!(outcome, Err(BackendError::ProxyRequest)));
}

#[test]
fn forwarded_outcome_with_response_is_wrapped() {
    let response = RoxyResponse::forwarded(Some((ok_head(), "stream")), 4).unwrap();
    assert_eq!(response.request_id(), 4);
    assert_eq!(response.status_code(), 200);
}

#[test]
fn utf8_chunk_is_decoded() {
    assert_eq!(decode_chunk("héllo".as_bytes()), "héllo");
    assert_eq!(decode_chunk(b""), "");
}

#[test]
fn invalid_utf8_chunk_is_replaced_by_the_notice() {
    assert_eq!(decode_chunk(&[0xff, 0xfe]), "Invalid Utf-8 Sequence.");
    assert_eq!(decode_chunk(&[b'a', 0xc3]), "Invalid Utf-8 Sequence.");
}

#[test]
fn streaming_body_is_drained_and_buffered() {
    let mut response = RoxyResponse::new(ok_head(), "stream", 2);
    let frames = vec![
        Frame::Data(b"hel".to_vec()),
        Frame::Other,
        Frame::Data(vec![0xff]),
        Frame::Data(b"lo".to_vec()),
    ];
    let (texts, outcome) = response.body(&frames, false);
    assert_eq!(outcome, Ok(()));
    assert_eq!(texts, vec!["hel", "Invalid Utf-8 Sequence.", "lo"]);
    assert_eq!(response.request_id(), 2);
    let (_, body) = response.into_response();
    match body {
        Body::Buffered(bytes) => assert_eq!(bytes, vec![b'h', b'e', b'l', 0xff, b'l', b'o']),
        _ => panic!("a drained body is buffered"),
    }
}

#[test]
fn body_is_idempotent_once_buffered() {
    let mut response = RoxyResponse::new(ok_head(), "stream", 2);
    let frames = vec![Frame::Data(b"hi".to_vec())];
    let (first, _) = response.body(&frames, false);
    assert_eq!(first, vec!["hi"]);
    let (second, outcome) = response.body(&frames, false);
    assert_eq!(outcome, Ok(()));
    assert_eq!(second, vec!["hi"]);
    let (third, _) = response.body(&Vec::new(), true);
    assert_eq!(third, vec!["hi"]);
    let (_, body) = response.into_response();
    assert!(matches!(body, Body::Buffered(bytes) if bytes == b"hi".to_vec()));
}

#[test]
fn failed_stream_reports_body_processing_and_stays_streaming() {
    let mut response = RoxyResponse::new(ok_head(), "stream", 2);
    let frames = vec![Frame::Data(b"par".to_vec())];
    let (texts, outcome) = response.body(&frames, true);
    assert_eq!(texts, vec!["par"]);
    assert_eq!(outcome, Err(BackendError::BodyProcessing));
    let (_, body) = response.into_response();
    assert!(matches!(body, Body::Streaming("stream")));
}

#[test]
fn stream_without_frames_buffers_an_empty_body() {
    let mut response = RoxyResponse::new(ok_head(), (), 2);
    let (texts, outcome) = response.body(&Vec::new(), false);
    assert!(texts.is_empty());
    assert_eq!(outcome, Ok(()));
    let (again, _) = response.body(&Vec::new(), false);
    assert!(again.is_empty());
    let (_, body) = response.into_response();
    assert!(matches!(body, Body::Buffered(bytes) if bytes.is_empty()));
}

#[test]
fn absent_body_yields_nothing() {
    let mut response = RoxyResponse::<()>::empty(1);
    let (texts, outcome) = response.body(&vec![Frame::Data(b"x".to_vec())], false);
    assert!(texts.is_empty());
    assert_eq!(outcome, Ok(()));
    let (_, body) = response.into_response();
    assert!(matches!(body, Body::Empty));
}

#[test]
fn error_body_is_replayed_as_one_text() {
    let mut response = RoxyResponse::<()>::error(1);
    let (texts, outcome) = response.body(&Vec::new(), false);
    assert_eq!(outcome, Ok(()));
    assert_eq!(texts, vec!["Error rendering response. See Debug logs for more information"]);
}

#[test]
fn body_accessors_tell_the_states_apart() {
    let mut streaming: Body<u8> = Body::Streaming(3);
    assert!(streaming.as_full_mut().is_none());
    *streaming.as_incoming_mut().unwrap() = 4;
    assert!(matches!(streaming, Body::Streaming(4)));
    let mut buffered: Body<u8> = Body::Buffered(vec![1]);
    assert!(buffered.as_incoming_mut().is_none());
    buffered.as_full_mut().unwrap().push(2);
    assert!(matches!(buffered, Body::Buffered(bytes) if bytes == vec![1, 2]));
    let mut empty: Body<u8> = Body::Empty;
    assert!(empty.as_incoming_mut().is_none());
    assert!(empty.as_full_mut().is_none());
}

#[test]
fn host_header_gives_an_absolute_http_target() {
    let mut headers = HeaderMap::new();
    headers.append(HOST, HeaderValue::from_static("example.com:8080"));
    let request = RoxyRequest::new(request_head(Some("/a?b=1"), headers), (), 6);
    let routed = request.route_by_host().unwrap();
    assert_eq!(routed.request_id(), 6);
    let uri = routed.uri();
    assert_eq!(uri.scheme, Some(Scheme::Http));
    let authority = uri.authority.as_ref().unwrap();
    assert_eq!(authority.as_str(), "example.com:8080");
    assert_eq!(authority.host(), "example.com");
    assert_eq!(authority.port_u16(), Some(8080));
    assert_eq!(uri.path_and_query.as_deref(), Some("/a?b=1"));
    assert!(routed.head().headers.contains_key(HOST));
}

#[test]
fn missing_path_becomes_the_root_path() {
    let mut headers = HeaderMap::new();
    headers.append(HOST, HeaderValue::from_static("example.com"));
    let routed = RoxyRequest::new(request_head(None, headers), (), 6).route_by_host().unwrap();
    assert_eq!(routed.uri().path_and_query.as_deref(), Some("/"));
}

#[test]
fn request_without_host_cannot_be_routed() {
    let request = RoxyRequest::new(request_head(Some("/"), HeaderMap::new()), (), 6);
    assert!(matches!(request.route_by_host(), Err(BackendError::MissingOrInvalidHostHeader)));
}

#[test]
fn host_that_is_no_authority_cannot_be_routed() {
    let mut headers = HeaderMap::new();
    headers.append(HOST, HeaderValue::from_static("exa mple.com"));
    let request = RoxyRequest::new(request_head(Some("/"), headers), (), 6);
    assert!(matches!(request.route_by_host(), Err(BackendError::MissingOrInvalidHostHeader)));
}

#[test]
fn host_with_bytes_outside_ascii_cannot_be_routed() {
    let mut headers = HeaderMap::new();
    headers.append(HOST, HeaderValue::from_bytes(b"ex\xe4mple.com").unwrap());
    let request = RoxyRequest::new(request_head(Some("/"), headers), (), 6);
    assert!(matches!(request.route_by_host(), Err(BackendError::MissingOrInvalidHostHeader)));
}
