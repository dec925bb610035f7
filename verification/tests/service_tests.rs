use hyper::header::{HeaderValue, CONNECTION, UPGRADE};
use hyper::HeaderMap;
use roxy::error::BackendError;
use roxy::message::{Method, RequestHead, ResponseHead, UriParts, Version};
use roxy::request::RoxyRequest;
use roxy::response::{Body, RoxyResponse};
use roxy::server::CoreProxyServer;
use roxy::service::{
    classify, Exchange, ExchangeAction, ExchangeEvent, ExchangeInput, ExchangeOutput,
    ExchangeState, Route,
};

fn service_request(method: Method, headers: HeaderMap) -> RoxyRequest<()> {
    let head = RequestHead {
        method,
        uri: UriParts { scheme: None, authority: None, path_and_query: Some("/".to_string()) },
        version: Version::Http11,
        headers,
    };
    RoxyRequest::new(head, (), 1)
}

fn websocket_headers() -> HeaderMap {
    let mut headers = HeaderMap::new();
    headers.append(CONNECTION, HeaderValue::from_static("Upgrade"));
    headers.append(UPGRADE, HeaderValue::from_static("websocket"));
    headers
}

fn exchange_request(id: u64) -> RoxyRequest<()> {
    let head = RequestHead {
        method: Method::Get,
        uri: UriParts { scheme: None, authority: None, path_and_query: Some("/".to_string()) },
        version: Version::Http11,
        headers: HeaderMap::new(),
    };
    RoxyRequest::new(head, (), id)
}

fn exchange_response(status: u16, id: u64) -> RoxyResponse<()> {
    let head = ResponseHead { status, version: Version::Http11, headers: HeaderMap::new() };
    RoxyResponse::new(head, (), id)
}

fn input_for(event: ExchangeEvent) -> ExchangeInput<(), ()> {
    match event {
        ExchangeEvent::Start => ExchangeInput::Start(exchange_request(7)),
        ExchangeEvent::RequestReturned => ExchangeInput::RequestReturned(exchange_request(7)),
        ExchangeEvent::RequestFailed => ExchangeInput::RequestFailed,
        ExchangeEvent::UpstreamReturned => ExchangeInput::UpstreamReturned(exchange_response(200, 7)),
        ExchangeEvent::UpstreamFailed => ExchangeInput::UpstreamFailed,
        ExchangeEvent::ResponseReturned => {
            ExchangeInput::ResponseReturned(exchange_response(200, 7))
        }
    }
}

fn action_of(output: &ExchangeOutput<(), ()>) -> ExchangeAction {
    match output {
        ExchangeOutput::CallOnRequest(_) => ExchangeAction::CallOnRequest,
        ExchangeOutput::SendUpstream(_) => ExchangeAction::SendUpstream,
        ExchangeOutput::CallOnResponse(_) => ExchangeAction::CallOnResponse,
        ExchangeOutput::Deliver(_) => ExchangeAction::Deliver,
        ExchangeOutput::DeliverError(_) => ExchangeAction::DeliverError,
        ExchangeOutput::Ignore => ExchangeAction::Ignore,
    }
}

fn run_exchange(events: &[ExchangeEvent]) -> (ExchangeState, Vec<ExchangeAction>) {
    let mut exchange = Exchange::new();
    let mut actions = Vec::new();
    for event in events {
        let (next, output) = CoreProxyServer::proxy_http(exchange, input_for(*event));
        exchange = next;
        actions.push(action_of(&output));
    }
    (exchange.state, actions)
}

#[test]
fn connect_takes_precedence_over_upgrade() {
    assert_eq!(classify(true, true), Route::Connect);
    assert_eq!(classify(true, false), Route::Connect);
    assert_eq!(classify(false, true), Route::WebSocket);
    assert_eq!(classify(false, false), Route::Http);
}

#[test]
fn plain_get_is_forwarded() {
    let request = service_request(Method::Get, HeaderMap::new());
    assert_eq!(CoreProxyServer::proxy_service(&request), Route::Http);
}

#[test]
fn connect_request_opens_a_tunnel() {
    let request = service_request(Method::Connect, HeaderMap::new());
    assert_eq!(CoreProxyServer::proxy_service(&request), Route::Connect);
    let upgrading = service_request(Method::Connect, websocket_headers());
    assert_eq!(CoreProxyServer::proxy_service(&upgrading), Route::Connect);
}

#[test]
fn websocket_handshake_headers_are_recognised() {
    let request = service_request(Method::Get, websocket_headers());
    assert_eq!(CoreProxyServer::proxy_service(&request), Route::WebSocket);
}

#[test]
fn websocket_is_found_in_a_list_and_in_any_case() {
    let mut headers = HeaderMap::new();
    headers.append(CONNECTION, HeaderValue::from_static("keep-alive, upgrade"));
    headers.append(UPGRADE, HeaderValue::from_static("h2c, WebSocket"));
    let request = service_request(Method::Get, headers);
    assert_eq!(CoreProxyServer::proxy_service(&request), Route::WebSocket);
}

#[test]
fn upgrade_to_another_protocol_is_forwarded() {
    let mut headers = HeaderMap::new();
    headers.append(CONNECTION, HeaderValue::from_static("Upgrade"));
    headers.append(UPGRADE, HeaderValue::from_static("h2c"));
    let request = service_request(Method::Get, headers);
    assert_eq!(CoreProxyServer::proxy_service(&request), Route::Http);
}

#[test]
fn upgrade_header_without_connection_header_is_forwarded() {
    let mut headers = HeaderMap::new();
    headers.append(UPGRADE, HeaderValue::from_static("websocket"));
    let request = service_request(Method::Get, headers);
    assert_eq!(CoreProxyServer::proxy_service(&request), Route::Http);
}

#[test]
fn websocket_upgrade_is_answered_with_an_empty_response() {
    let request = service_request(Method::Get, websocket_headers());
    let response: RoxyResponse<()> = CoreProxyServer::proxy_websocket(&request).unwrap();
    assert_eq!(response.request_id(), 1);
    assert_eq!(response.status_code(), 200);
    let (_, body) = response.into_response();
    assert!(matches!(body, Body::Empty));
}

#[test]
fn handler_response_is_passed_on() {
    let handled = RoxyResponse::<()>::empty(3);
    let response = CoreProxyServer::respond(Ok(handled), 3);
    assert_eq!(response.status_code(), 200);
    assert_eq!(response.request_id(), 3);
}

#[test]
fn handler_failure_becomes_a_500_with_the_request_id() {
    let response =
        CoreProxyServer::respond::<()>(Err(BackendError::MissingOrInvalidAuthority), 17);
    assert_eq!(response.status_code(), 500);
    assert_eq!(response.request_id(), 17);
    let (_, body) = response.into_response();
    match body {
        Body::Buffered(bytes) => assert!(bytes.starts_with(b"Error rendering response")),
        _ => panic!("the error response has a buffered body"),
    }
}

#[test]
fn successful_exchange_calls_both_callbacks_once_in_order() {
    let (state, actions) = run_exchange(&[
        ExchangeEvent::Start,
        ExchangeEvent::RequestReturned,
        ExchangeEvent::UpstreamReturned,
        ExchangeEvent::ResponseReturned,
    ]);
    assert_eq!(state, ExchangeState::Done);
    assert_eq!(
        actions,
        vec![
            ExchangeAction::CallOnRequest,
            ExchangeAction::SendUpstream,
            ExchangeAction::CallOnResponse,
            ExchangeAction::Deliver,
        ]
    );
}

#[test]
fn failed_request_callback_skips_send_and_response_callback() {
    let (state, actions) = run_exchange(&[
        ExchangeEvent::Start,
        ExchangeEvent::RequestFailed,
        ExchangeEvent::UpstreamReturned,
        ExchangeEvent::ResponseReturned,
    ]);
    assert_eq!(state, ExchangeState::Done);
    assert_eq!(
        actions,
        vec![
            ExchangeAction::CallOnRequest,
            ExchangeAction::DeliverError,
            ExchangeAction::Ignore,
            ExchangeAction::Ignore,
        ]
    );
}

#[test]
fn failed_upstream_call_skips_response_callback() {
    let (state, actions) = run_exchange(&[
        ExchangeEvent::Start,
        ExchangeEvent::RequestReturned,
        ExchangeEvent::UpstreamFailed,
    ]);
    assert_eq!(state, ExchangeState::Done);
    assert_eq!(
        actions,
        vec![
            ExchangeAction::CallOnRequest,
            ExchangeAction::SendUpstream,
            ExchangeAction::DeliverError,
        ]
    );
    assert!(!actions.contains(&ExchangeAction::CallOnResponse));
}

#[test]
fn events_out_of_turn_are_ignored() {
    let (state, actions) = run_exchange(&[
        ExchangeEvent::UpstreamReturned,
        ExchangeEvent::ResponseReturned,
        ExchangeEvent::Start,
        ExchangeEvent::Start,
    ]);
    assert_eq!(state, ExchangeState::OnRequest);
    assert_eq!(
        actions,
        vec![
            ExchangeAction::Ignore,
            ExchangeAction::Ignore,
            ExchangeAction::CallOnRequest,
            ExchangeAction::Ignore,
        ]
    );
}

#[test]
fn what_is_sent_is_what_the_request_callback_returned() {
    let exchange = Exchange::new();
    let (exchange, output) =
        CoreProxyServer::proxy_http::<(), ()>(exchange, ExchangeInput::Start(exchange_request(41)));
    assert_eq!(exchange.request_id, 41);
    match output {
        ExchangeOutput::CallOnRequest(request) => assert_eq!(request.request_id(), 41),
        other => panic!("unexpected step {:?}", other),
    }
    let (_, head, _) = exchange_request(41).deconstruct();
    let changed = RoxyRequest::new(RequestHead { method: Method::Post, ..head }, (), 41);
    let (exchange, output) =
        CoreProxyServer::proxy_http::<(), ()>(exchange, ExchangeInput::RequestReturned(changed));
    assert_eq!(exchange.state, ExchangeState::Upstream);
    match output {
        ExchangeOutput::SendUpstream(request) => assert_eq!(*request.method(), Method::Post),
        other => panic!("unexpected step {:?}", other),
    }
}

#[test]
fn what_is_delivered_is_what_the_response_callback_returned() {
    let exchange = Exchange { state: ExchangeState::Upstream, request_id: 5 };
    let (exchange, output) = CoreProxyServer::proxy_http::<(), ()>(
        exchange,
        ExchangeInput::UpstreamReturned(exchange_response(200, 5)),
    );
    match output {
        ExchangeOutput::CallOnResponse(response) => assert_eq!(response.status_code(), 200),
        other => panic!("unexpected step {:?}", other),
    }
    let (exchange, output) = CoreProxyServer::proxy_http::<(), ()>(
        exchange,
        ExchangeInput::ResponseReturned(exchange_response(418, 5)),
    );
    assert_eq!(exchange.state, ExchangeState::Done);
    match output {
        ExchangeOutput::Deliver(response) => {
            assert_eq!(response.status_code(), 418);
            assert_eq!(response.request_id(), 5);
        }
        other => panic!("unexpected step {:?}", other),
    }
}

#[test]
fn refused_connection_delivers_a_500_for_the_request_that_started() {
    let exchange = Exchange::new();
    let (exchange, _) =
        CoreProxyServer::proxy_http::<(), ()>(exchange, ExchangeInput::Start(exchange_request(77)));
    let (exchange, _) = CoreProxyServer::proxy_http::<(), ()>(
        exchange,
        ExchangeInput::RequestReturned(exchange_request(12345)),
    );
    let (exchange, output) =
        CoreProxyServer::proxy_http::<(), ()>(exchange, ExchangeInput::UpstreamFailed);
    assert_eq!(exchange.state, ExchangeState::Done);
    match output {
        ExchangeOutput::DeliverError(response) => {
            assert_eq!(response.status_code(), 500);
            assert_eq!(response.request_id(), 77);
        }
        other => panic!("unexpected step {:?}", other),
    }
}
