//! The per-request service: where a request goes, in which order the host
//! callbacks and the upstream client take part in an exchange, and what the
//! client receives.

use crate::error::BackendError;
use crate::headers::{header_values, is_upgrade_request, websocket_upgrade_requested};
use crate::message::Method;
use crate::request::RoxyRequest;
use crate::response::{is_empty_response, is_error_response, RoxyResponse};
use crate::server::CoreProxyServer;
use vstd::prelude::*;

verus! {

/// The handler a request is given to.
#[derive(Clone, Copy, Debug, PartialEq, Eq, Structural)]
pub enum Route {
    /// A `CONNECT` request: a tunnel is opened and possibly intercepted.
    Connect,
    /// A WebSocket upgrade: acknowledged with an empty response.
    WebSocket,
    /// Anything else: forwarded upstream between the two host callbacks.
    Http,
}

/// The route of a request, from whether its method is `CONNECT` and whether
/// it asks for a WebSocket upgrade. `CONNECT` takes precedence.
pub open spec fn route_for(connect: bool, upgrade: bool) -> Route {
    if connect {
        Route::Connect
    } else if upgrade {
        Route::WebSocket
    } else {
        Route::Http
    }
}

/// Chooses the route of a request, see [`route_for`].
pub fn classify(connect: bool, upgrade: bool) -> (route: Route)
    ensures
        route == route_for(connect, upgrade),
{
    if connect {
        Route::Connect
    } else if upgrade {
        Route::WebSocket
    } else {
        Route::Http
    }
}

/// Where a plain exchange stands.
#[derive(Clone, Copy, Debug, PartialEq, Eq, Structural)]
pub enum ExchangeState {
    /// The request has been wrapped; nothing has been called yet.
    Received,
    /// The request callback is running.
    OnRequest,
    /// The upstream client is sending the request.
    Upstream,
    /// The response callback is running.
    OnResponse,
    /// The client has its response.
    Done,
}

/// What happened during a plain exchange.
#[derive(Clone, Copy, Debug, PartialEq, Eq, Structural)]
pub enum ExchangeEvent {
    /// The exchange begins.
    Start,
    /// The request callback returned the request to send.
    RequestReturned,
    /// The request callback failed.
    RequestFailed,
    /// The upstream client returned a response.
    UpstreamReturned,
    /// The upstream client failed.
    UpstreamFailed,
    /// The response callback returned the response to deliver.
    ResponseReturned,
}

/// What a plain exchange does next.
#[derive(Clone, Copy, Debug, PartialEq, Eq, Structural)]
pub enum ExchangeAction {
    /// Call the request callback with the request.
    CallOnRequest,
    /// Send the request the callback returned upstream.
    SendUpstream,
    /// Call the response callback with the upstream response.
    CallOnResponse,
    /// Deliver the response the callback returned to the client.
    Deliver,
    /// Deliver a synthesized error response to the client.
    DeliverError,
    /// Nothing: the event does not belong to the state.
    Ignore,
}

/// The state an exchange moves to on an event.
pub open spec fn exchange_next(state: ExchangeState, event: ExchangeEvent) -> ExchangeState {
    match (state, event) {
        (ExchangeState::Received, ExchangeEvent::Start) => ExchangeState::OnRequest,
        (ExchangeState::OnRequest, ExchangeEvent::RequestReturned) => ExchangeState::Upstream,
        (ExchangeState::OnRequest, ExchangeEvent::RequestFailed) => ExchangeState::Done,
        (ExchangeState::Upstream, ExchangeEvent::UpstreamReturned) => ExchangeState::OnResponse,
        (ExchangeState::Upstream, ExchangeEvent::UpstreamFailed) => ExchangeState::Done,
        (ExchangeState::OnResponse, ExchangeEvent::ResponseReturned) => ExchangeState::Done,
        _ => state,
    }
}

/// What an exchange does on an event.
pub open spec fn exchange_action(state: ExchangeState, event: ExchangeEvent) -> ExchangeAction {
    match (state, event) {
        (ExchangeState::Received, ExchangeEvent::Start) => ExchangeAction::CallOnRequest,
        (ExchangeState::OnRequest, ExchangeEvent::RequestReturned) => ExchangeAction::SendUpstream,
        (ExchangeState::OnRequest, ExchangeEvent::RequestFailed) => ExchangeAction::DeliverError,
        (
            ExchangeState::Upstream,
            ExchangeEvent::UpstreamReturned,
        ) => ExchangeAction::CallOnResponse,
        (ExchangeState::Upstream, ExchangeEvent::UpstreamFailed) => ExchangeAction::DeliverError,
        (ExchangeState::OnResponse, ExchangeEvent::ResponseReturned) => ExchangeAction::Deliver,
        _ => ExchangeAction::Ignore,
    }
}

/// A plain exchange in progress: where it stands, and the identifier of the
/// request that started it.
#[derive(Clone, Copy, Debug, PartialEq, Eq, Structural)]
pub struct Exchange {
    pub state: ExchangeState,
    pub request_id: u64,
}

impl Exchange {
    /// An exchange that has not started yet.
    pub fn new() -> (exchange: Self)
        ensures
            exchange == (Exchange { state: ExchangeState::Received, request_id: 0 }),
    {
        Exchange { state: ExchangeState::Received, request_id: 0 }
    }
}

/// What happened during a plain exchange, together with the message that
/// came with it.
#[derive(Debug)]
pub enum ExchangeInput<Q, R> {
    /// The exchange begins with this request.
    Start(RoxyRequest<Q>),
    /// The request callback returned this request.
    RequestReturned(RoxyRequest<Q>),
    /// The request callback failed.
    RequestFailed,
    /// The upstream client returned this response.
    UpstreamReturned(RoxyResponse<R>),
    /// The upstream client failed.
    UpstreamFailed,
    /// The response callback returned this response.
    ResponseReturned(RoxyResponse<R>),
}

/// What a plain exchange does next, together with the message to do it
/// with.
#[derive(Debug)]
pub enum ExchangeOutput<Q, R> {
    /// Call the request callback with this request.
    CallOnRequest(RoxyRequest<Q>),
    /// Send this request upstream.
    SendUpstream(RoxyRequest<Q>),
    /// Call the response callback with this response.
    CallOnResponse(RoxyResponse<R>),
    /// Deliver this response to the client.
    Deliver(RoxyResponse<R>),
    /// Deliver this synthesized error response to the client.
    DeliverError(RoxyResponse<R>),
    /// Nothing: the event does not belong to the state.
    Ignore,
}

impl<Q, R> ExchangeInput<Q, R> {
    /// What happened, without the message.
    pub open spec fn kind(self) -> ExchangeEvent {
        match self {
            ExchangeInput::Start(_) => ExchangeEvent::Start,
            ExchangeInput::RequestReturned(_) => ExchangeEvent::RequestReturned,
            ExchangeInput::RequestFailed => ExchangeEvent::RequestFailed,
            ExchangeInput::UpstreamReturned(_) => ExchangeEvent::UpstreamReturned,
            ExchangeInput::UpstreamFailed => ExchangeEvent::UpstreamFailed,
            ExchangeInput::ResponseReturned(_) => ExchangeEvent::ResponseReturned,
        }
    }
}

impl<Q, R> ExchangeOutput<Q, R> {
    /// What to do, without the message.
    pub open spec fn kind(self) -> ExchangeAction {
        match self {
            ExchangeOutput::CallOnRequest(_) => ExchangeAction::CallOnRequest,
            ExchangeOutput::SendUpstream(_) => ExchangeAction::SendUpstream,
            ExchangeOutput::CallOnResponse(_) => ExchangeAction::CallOnResponse,
            ExchangeOutput::Deliver(_) => ExchangeAction::Deliver,
            ExchangeOutput::DeliverError(_) => ExchangeAction::DeliverError,
            ExchangeOutput::Ignore => ExchangeAction::Ignore,
        }
    }
}

/// The identifier an exchange goes on with: that of the request it starts
/// with, and from then on the same.
pub open spec fn exchange_id<Q, R>(exchange: Exchange, input: ExchangeInput<Q, R>) -> u64 {
    match input {
        ExchangeInput::Start(request) => if exchange.state == ExchangeState::Received {
            request@.request_id
        } else {
            exchange.request_id
        },
        _ => exchange.request_id,
    }
}

impl CoreProxyServer {
    /// Chooses the handler for a request: `CONNECT` requests open a tunnel,
    /// WebSocket upgrades are acknowledged, everything else is forwarded.
    pub fn proxy_service<B>(req: &RoxyRequest<B>) -> (route: Route)
        ensures
            route == route_for(
                req@.head.method == Method::Connect,
                websocket_upgrade_requested(header_values(req@.head.headers)),
            ),
            !(req@.head.method == Method::Connect) && !(header_values(
                req@.head.headers,
            ).contains_key("upgrade"@)) ==> route == Route::Http,
    {
        let connect = req.method().is_connect();
        let upgrade = is_upgrade_request(&req.head().headers);
        classify(connect, upgrade)
    }

    /// What the client receives at the end of the service: the response of
    /// the handler, or, when the handler failed, a synthesized error response
    /// that carries the identifier of the request.
    pub fn respond<B>(outcome: Result<RoxyResponse<B>, BackendError>, request_id: u64) -> (response:
        RoxyResponse<B>)
        ensures
            match outcome {
                Ok(handled) => response == handled,
                Err(_) => is_error_response(response@, request_id),
            },
    {
        match outcome {
            Ok(response) => response,
            Err(_) => RoxyResponse::error(request_id),
        }
    }

    /// Answers a WebSocket upgrade: the request is not forwarded, the client
    /// receives an empty response that carries the identifier of the request.
    pub fn proxy_websocket<B, R>(req: &RoxyRequest<B>) -> (response: Result<
        RoxyResponse<R>,
        BackendError,
    >)
        ensures
            response matches Ok(empty) && is_empty_response(empty@, req@.request_id),
    {
        Ok(RoxyResponse::empty(req.request_id()))
    }

    /// Runs a plain exchange one step: given where it stands and what
    /// happened, says where it stands now and what to do next.
    ///
    /// An exchange starts out as [`Exchange::new`] with the request as it
    /// entered the proxy. The request callback runs to completion before the
    /// request is sent, and what is sent is the request the callback returned.
    /// The response callback runs to completion before the response is
    /// delivered; it is called with the response of the upstream client, and
    /// what is delivered is the response it returned. When the request
    /// callback or the upstream client fails, the response callback is not
    /// called: an error response for the request that started the exchange is
    /// delivered at once.
    pub fn proxy_http<Q, R>(exchange: Exchange, input: ExchangeInput<Q, R>) -> (step: (
        Exchange,
        ExchangeOutput<Q, R>,
    ))
        ensures
            step.0.state == exchange_next(exchange.state, input.kind()),
            step.0.request_id == exchange_id(exchange, input),
            step.1.kind() == exchange_action(exchange.state, input.kind()),
            match step.1 {
                ExchangeOutput::CallOnRequest(request) => input == ExchangeInput::<Q, R>::Start(
                    request,
                ),
                ExchangeOutput::SendUpstream(request) => input == ExchangeInput::<
                    Q,
                    R,
                >::RequestReturned(request),
                ExchangeOutput::CallOnResponse(response) => input == ExchangeInput::<
                    Q,
                    R,
                >::UpstreamReturned(response),
                ExchangeOutput::Deliver(response) => input == ExchangeInput::<
                    Q,
                    R,
                >::ResponseReturned(response),
                ExchangeOutput::DeliverError(response) => is_error_response(
                    response@,
                    exchange.request_id,
                ),
                ExchangeOutput::Ignore => true,
            },
    {
        match input {
            ExchangeInput::Start(request) => match exchange.state {
                ExchangeState::Received => (
                    Exchange { state: ExchangeState::OnRequest, request_id: request.request_id() },
                    ExchangeOutput::CallOnRequest(request),
                ),
                _ => (exchange, ExchangeOutput::Ignore),
            },
            ExchangeInput::RequestReturned(request) => match exchange.state {
                ExchangeState::OnRequest => (
                    Exchange { state: ExchangeState::Upstream, request_id: exchange.request_id },
                    ExchangeOutput::SendUpstream(request),
                ),
                _ => (exchange, ExchangeOutput::Ignore),
            },
            ExchangeInput::UpstreamReturned(response) => match exchange.state {
                ExchangeState::Upstream => (
                    Exchange { state: ExchangeState::OnResponse, request_id: exchange.request_id },
                    ExchangeOutput::CallOnResponse(response),
                ),
                _ => (exchange, ExchangeOutput::Ignore),
            },
            ExchangeInput::ResponseReturned(response) => match exchange.state {
                ExchangeState::OnResponse => (
                    Exchange { state: ExchangeState::Done, request_id: exchange.request_id },
                    ExchangeOutput::Deliver(response),
                ),
                _ => (exchange, ExchangeOutput::Ignore),
            },
            ExchangeInput::RequestFailed => match exchange.state {
                ExchangeState::OnRequest => (
                    Exchange { state: ExchangeState::Done, request_id: exchange.request_id },
                    ExchangeOutput::DeliverError(RoxyResponse::error(exchange.request_id)),
                ),
                _ => (exchange, ExchangeOutput::Ignore),
            },
            ExchangeInput::UpstreamFailed => match exchange.state {
                ExchangeState::Upstream => (
                    Exchange { state: ExchangeState::Done, request_id: exchange.request_id },
                    ExchangeOutput::DeliverError(RoxyResponse::error(exchange.request_id)),
                ),
                _ => (exchange, ExchangeOutput::Ignore),
            },
        }
    }
}

/// The state of an exchange that started in [`ExchangeState::Received`] and
/// has seen `events` in order.
pub open spec fn exchange_state_after(events: Seq<ExchangeEvent>) -> ExchangeState
    decreases events.len(),
{
    if events.len() == 0 {
        ExchangeState::Received
    } else {
        exchange_next(exchange_state_after(events.drop_last()), events.last())
    }
}

/// What an exchange that started in [`ExchangeState::Received`] does as it
/// sees `events` in order: one action per event.
pub open spec fn exchange_trace(events: Seq<ExchangeEvent>) -> Seq<ExchangeAction> {
    Seq::new(
        events.len(),
        |k: int| exchange_action(exchange_state_after(events.take(k)), events[k]),
    )
}

/// How far an exchange has come.
pub open spec fn progress(state: ExchangeState) -> nat {
    match state {
        ExchangeState::Received => 0,
        ExchangeState::OnRequest => 1,
        ExchangeState::Upstream => 2,
        ExchangeState::OnResponse => 3,
        ExchangeState::Done => 4,
    }
}

/// An exchange never goes back: the state after more events is at least as
/// far as the state after fewer.
pub proof fn lemma_exchange_progresses(events: Seq<ExchangeEvent>, earlier: int, later: int)
    requires
        0 <= earlier <= later <= events.len(),
    ensures
        progress(exchange_state_after(events.take(earlier))) <= progress(
            exchange_state_after(events.take(later)),
        ),
    decreases later - earlier,
{
    if earlier < later {
        lemma_exchange_progresses(events, earlier, later - 1);
        assert(events.take(later).drop_last() == events.take(later - 1));
    }
}

proof fn lemma_left_received(events: Seq<ExchangeEvent>, k: int)
    requires
        0 <= k <= events.len(),
        exchange_state_after(events.take(k)) != ExchangeState::Received,
    ensures
        exists|j: int| 0 <= j < k && exchange_trace(events)[j] == ExchangeAction::CallOnRequest,
    decreases k,
{
    if k == 0 {
        assert(events.take(0).len() == 0);
    } else {
        assert(events.take(k).drop_last() == events.take(k - 1));
        if exchange_state_after(events.take(k - 1)) == ExchangeState::Received {
            assert(events.take(k).last() == events[k - 1]);
            assert(exchange_trace(events)[k - 1] == ExchangeAction::CallOnRequest);
        } else {
            lemma_left_received(events, k - 1);
        }
    }
}

proof fn lemma_reached_on_response(events: Seq<ExchangeEvent>, k: int)
    requires
        0 <= k <= events.len(),
        exchange_state_after(events.take(k)) == ExchangeState::OnResponse,
    ensures
        exists|j: int| 0 <= j < k && exchange_trace(events)[j] == ExchangeAction::CallOnResponse,
    decreases k,
{
    if k == 0 {
        assert(events.take(0).len() == 0);
    } else {
        assert(events.take(k).drop_last() == events.take(k - 1));
        assert(events.take(k).last() == events[k - 1]);
        if exchange_state_after(events.take(k - 1)) == ExchangeState::OnResponse {
            lemma_reached_on_response(events, k - 1);
        } else {
            assert(exchange_trace(events)[k - 1] == ExchangeAction::CallOnResponse);
        }
    }
}

/// The request callback completes before the upstream send begins: whenever
/// an exchange sends a request upstream, it does so on the return of the
/// request callback, which it called at an earlier step.
pub proof fn lemma_request_callback_before_send(events: Seq<ExchangeEvent>, k: int)
    requires
        0 <= k < events.len(),
        exchange_trace(events)[k] == ExchangeAction::SendUpstream,
    ensures
        events[k] == ExchangeEvent::RequestReturned,
        exists|j: int| 0 <= j < k && exchange_trace(events)[j] == ExchangeAction::CallOnRequest,
{
    lemma_left_received(events, k);
}

/// The response callback completes before the client receives the response:
/// whenever an exchange delivers a response, it does so on the return of the
/// response callback, which it called at an earlier step.
pub proof fn lemma_response_callback_before_delivery(events: Seq<ExchangeEvent>, k: int)
    requires
        0 <= k < events.len(),
        exchange_trace(events)[k] == ExchangeAction::Deliver,
    ensures
        events[k] == ExchangeEvent::ResponseReturned,
        exists|j: int| 0 <= j < k && exchange_trace(events)[j] == ExchangeAction::CallOnResponse,
{
    lemma_reached_on_response(events, k);
}

/// The upstream send completes before the response callback is called:
/// whenever an exchange calls the response callback, it does so on the
/// return of the upstream client.
pub proof fn lemma_send_before_response_callback(events: Seq<ExchangeEvent>, k: int)
    requires
        0 <= k < events.len(),
        exchange_trace(events)[k] == ExchangeAction::CallOnResponse,
    ensures
        events[k] == ExchangeEvent::UpstreamReturned,
{
}

/// After a failure the response callback is not called: an exchange that
/// delivers a synthesized error response never calls the response callback,
/// neither before nor after.
pub proof fn lemma_failure_skips_response_callback(events: Seq<ExchangeEvent>, j: int, k: int)
    requires
        0 <= j < events.len(),
        0 <= k < events.len(),
        exchange_trace(events)[j] == ExchangeAction::DeliverError,
    ensures
        exchange_trace(events)[k] != ExchangeAction::CallOnResponse,
{
    if exchange_trace(events)[k] == ExchangeAction::CallOnResponse {
        assert(events.take(j + 1).drop_last() == events.take(j));
        assert(events.take(j + 1).last() == events[j]);
        assert(events.take(k + 1).drop_last() == events.take(k));
        assert(events.take(k + 1).last() == events[k]);
        if k < j {
            lemma_exchange_progresses(events, k + 1, j);
        } else if j < k {
            lemma_exchange_progresses(events, j + 1, k);
        }
    }
}

/// An exchange answers at most once: after a response or an error response
/// has been delivered, nothing further is done.
pub proof fn lemma_exchange_answers_once(events: Seq<ExchangeEvent>, j: int, k: int)
    requires
        0 <= j < k < events.len(),
        exchange_trace(events)[j] == ExchangeAction::Deliver || exchange_trace(events)[j]
            == ExchangeAction::DeliverError,
    ensures
        exchange_trace(events)[k] == ExchangeAction::Ignore,
{
    assert(events.take(j + 1).drop_last() == events.take(j));
    assert(events.take(j + 1).last() == events[j]);
    lemma_exchange_progresses(events, j + 1, k);
}

} // verus!
