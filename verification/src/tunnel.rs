//! `CONNECT` handling: the acknowledgement of the request, the life of the
//! tunnel behind it, and the rewriting of requests that arrive through an
//! intercepted tunnel.

use crate::error::BackendError;
use crate::message::{Authority, RequestHead, Scheme};
use crate::request::RoxyRequest;
use crate::response::{is_empty_response, RoxyResponse};
use crate::server::CoreProxyServer;
use crate::sniff::Sniffed;
use vstd::prelude::*;

verus! {

/// Where a tunnel stands.
#[derive(Clone, Copy, Debug, PartialEq, Eq, Structural)]
pub enum TunnelState {
    /// The client has its acknowledgement; the protocol upgrade is awaited.
    AwaitingUpgrade,
    /// The raw stream is there; its first two bytes are being read.
    Sniffing,
    /// The tunnel is intercepted. `established` tells whether the TLS
    /// handshake with the client is done and requests are being served.
    TlsServing { established: bool },
    /// The tunnel is relayed untouched. `connected` tells whether the
    /// connection to the target stands and bytes are being copied.
    RawTunneling { connected: bool },
    /// The tunnel is gone.
    Closed,
}

/// What happened to a tunnel.
#[derive(Clone, Copy, Debug, PartialEq, Eq, Structural)]
pub enum TunnelEvent {
    /// The protocol upgrade completed.
    Upgraded,
    /// The protocol upgrade failed.
    UpgradeFailed,
    /// Bytes were read from the start of the stream; this is what all bytes
    /// read so far say about it.
    Peeked(Sniffed),
    /// The stream ended before its first bytes could decide.
    PeekEnded,
    /// Reading the first bytes failed.
    ReadFailed,
    /// No server TLS configuration could be minted for the target.
    MintFailed,
    /// The TLS handshake with the client completed.
    HandshakeDone,
    /// The TLS handshake with the client failed.
    HandshakeFailed,
    /// The connection to the target stands.
    Connected,
    /// The connection to the target could not be opened.
    ConnectFailed,
    /// Serving the decrypted connection failed.
    ServeFailed,
    /// Copying bytes between client and target failed.
    CopyFailed,
    /// Serving or copying came to its end.
    Finished,
}

/// What is done next for a tunnel.
#[derive(Debug, Clone, PartialEq, Eq)]
pub enum TunnelAction {
    /// Read from the stream, keep what was read for rewinding, and report what
    /// all bytes read so far say.
    Peek,
    /// Obtain the server TLS configuration for the target from the
    /// certificate cache and accept the client's handshake on the rewound
    /// stream.
    AcceptTls,
    /// Serve HTTP on the decrypted stream, every request rewritten for the
    /// target of the tunnel.
    ServeHttps,
    /// Open a TCP connection to the target.
    ConnectUpstream,
    /// Copy bytes between the rewound stream and the target in both
    /// directions until either side closes.
    Relay,
    /// Log this failure; the tunnel is closed.
    Log(BackendError),
    /// Nothing is left to do; the tunnel is closed.
    Finish,
    /// Nothing: the event does not belong to the state.
    Ignore,
}

/// The failure an event stands for, if it is one.
pub open spec fn failure_of(event: TunnelEvent) -> Option<BackendError> {
    match event {
        TunnelEvent::UpgradeFailed => Some(BackendError::UpgradeError),
        TunnelEvent::ReadFailed => Some(BackendError::ReadFromUpgraded),
        TunnelEvent::MintFailed => Some(BackendError::TlsConfigSetup),
        TunnelEvent::HandshakeFailed => Some(BackendError::TlsStreamError),
        TunnelEvent::ConnectFailed => Some(BackendError::ProxyUnknown),
        TunnelEvent::ServeFailed => Some(BackendError::ServeConnection),
        TunnelEvent::CopyFailed => Some(BackendError::ProxyUnknown),
        _ => None,
    }
}

/// The state a tunnel moves to on an event.
pub open spec fn tunnel_next(state: TunnelState, event: TunnelEvent) -> TunnelState {
    if state == TunnelState::Closed || failure_of(event) is Some {
        TunnelState::Closed
    } else {
        match (state, event) {
            (TunnelState::AwaitingUpgrade, TunnelEvent::Upgraded) => TunnelState::Sniffing,
            (TunnelState::Sniffing, TunnelEvent::Peeked(Sniffed::NeedMore)) => TunnelState::Sniffing,
            (TunnelState::Sniffing, TunnelEvent::Peeked(Sniffed::Tls)) => TunnelState::TlsServing {
                established: false,
            },
            (
                TunnelState::Sniffing,
                TunnelEvent::Peeked(Sniffed::Unknown),
            ) => TunnelState::RawTunneling { connected: false },
            (TunnelState::Sniffing, TunnelEvent::PeekEnded) => TunnelState::RawTunneling {
                connected: false,
            },
            (
                TunnelState::TlsServing { established: false },
                TunnelEvent::HandshakeDone,
            ) => TunnelState::TlsServing { established: true },
            (
                TunnelState::TlsServing { established: true },
                TunnelEvent::Finished,
            ) => TunnelState::Closed,
            (
                TunnelState::RawTunneling { connected: false },
                TunnelEvent::Connected,
            ) => TunnelState::RawTunneling { connected: true },
            (
                TunnelState::RawTunneling { connected: true },
                TunnelEvent::Finished,
            ) => TunnelState::Closed,
            _ => state,
        }
    }
}

/// What is done for a tunnel on an event.
pub open spec fn tunnel_action(state: TunnelState, event: TunnelEvent) -> TunnelAction {
    if state == TunnelState::Closed {
        TunnelAction::Ignore
    } else if let Some(failure) = failure_of(event) {
        TunnelAction::Log(failure)
    } else {
        match (state, event) {
            (TunnelState::AwaitingUpgrade, TunnelEvent::Upgraded) => TunnelAction::Peek,
            (TunnelState::Sniffing, TunnelEvent::Peeked(Sniffed::NeedMore)) => TunnelAction::Peek,
            (TunnelState::Sniffing, TunnelEvent::Peeked(Sniffed::Tls)) => TunnelAction::AcceptTls,
            (
                TunnelState::Sniffing,
                TunnelEvent::Peeked(Sniffed::Unknown),
            ) => TunnelAction::ConnectUpstream,
            (TunnelState::Sniffing, TunnelEvent::PeekEnded) => TunnelAction::ConnectUpstream,
            (
                TunnelState::TlsServing { established: false },
                TunnelEvent::HandshakeDone,
            ) => TunnelAction::ServeHttps,
            (
                TunnelState::TlsServing { established: true },
                TunnelEvent::Finished,
            ) => TunnelAction::Finish,
            (
                TunnelState::RawTunneling { connected: false },
                TunnelEvent::Connected,
            ) => TunnelAction::Relay,
            (
                TunnelState::RawTunneling { connected: true },
                TunnelEvent::Finished,
            ) => TunnelAction::Finish,
            _ => TunnelAction::Ignore,
        }
    }
}

/// The failure an event stands for, if it is one.
pub fn failure(event: TunnelEvent) -> (failure: Option<BackendError>)
    ensures
        failure == failure_of(event),
{
    match event {
        TunnelEvent::UpgradeFailed => Some(BackendError::UpgradeError),
        TunnelEvent::ReadFailed => Some(BackendError::ReadFromUpgraded),
        TunnelEvent::MintFailed => Some(BackendError::TlsConfigSetup),
        TunnelEvent::HandshakeFailed => Some(BackendError::TlsStreamError),
        TunnelEvent::ConnectFailed => Some(BackendError::ProxyUnknown),
        TunnelEvent::ServeFailed => Some(BackendError::ServeConnection),
        TunnelEvent::CopyFailed => Some(BackendError::ProxyUnknown),
        _ => None,
    }
}

impl CoreProxyServer {
    /// Answers a `CONNECT` request. A request whose target names an authority
    /// is acknowledged at once with an empty response that carries the
    /// identifier of the request, and the tunnel to that authority starts in
    /// [`TunnelState::AwaitingUpgrade`]. A request without one fails with
    /// [`BackendError::MissingOrInvalidAuthority`].
    pub fn proxy_connect<B, R>(req: &RoxyRequest<B>) -> (answer: Result<
        (Authority, RoxyResponse<R>),
        BackendError,
    >)
        ensures
            match req@.head.uri.authority {
                Some(authority) => answer matches Ok(opened) && opened.0 == authority
                    && is_empty_response(opened.1@, req@.request_id),
                None => answer == Err::<(Authority, RoxyResponse<R>), BackendError>(
                    BackendError::MissingOrInvalidAuthority,
                ),
            },
    {
        match &req.uri().authority {
            Some(authority) => Ok((authority.clone(), RoxyResponse::empty(req.request_id()))),
            None => Err(BackendError::MissingOrInvalidAuthority),
        }
    }

    /// Runs a tunnel one step: given where it stands and what happened, says
    /// where it stands now and what to do next.
    ///
    /// After the upgrade the first two bytes of the stream decide, however
    /// many reads it takes to get them: a TLS record header means
    /// interception, anything else an untouched relay. While the bytes read
    /// so far cannot tell, more are read; a stream that ends before they can
    /// is relayed. Every failure closes the tunnel and is logged; a closed
    /// tunnel stays closed.
    pub fn tunnel(state: TunnelState, event: TunnelEvent) -> (step: (TunnelState, TunnelAction))
        ensures
            step.0 == tunnel_next(state, event),
            step.1 == tunnel_action(state, event),
    {
        match state {
            TunnelState::Closed => (TunnelState::Closed, TunnelAction::Ignore),
            TunnelState::TlsServing { established } => Self::proxy_https(established, event),
            TunnelState::RawTunneling { connected } => Self::proxy_unknown(connected, event),
            _ => {
                if let Some(failure) = failure(event) {
                    return (TunnelState::Closed, TunnelAction::Log(failure));
                }
                match (state, event) {
                    (TunnelState::AwaitingUpgrade, TunnelEvent::Upgraded) => (
                        TunnelState::Sniffing,
                        TunnelAction::Peek,
                    ),
                    (TunnelState::Sniffing, TunnelEvent::Peeked(verdict)) => {
                        match verdict {
                            Sniffed::NeedMore => (TunnelState::Sniffing, TunnelAction::Peek),
                            Sniffed::Tls => (
                                TunnelState::TlsServing { established: false },
                                TunnelAction::AcceptTls,
                            ),
                            Sniffed::Unknown => (
                                TunnelState::RawTunneling { connected: false },
                                TunnelAction::ConnectUpstream,
                            ),
                        }
                    },
                    (TunnelState::Sniffing, TunnelEvent::PeekEnded) => (
                        TunnelState::RawTunneling { connected: false },
                        TunnelAction::ConnectUpstream,
                    ),
                    _ => (state, TunnelAction::Ignore),
                }
            },
        }
    }

    /// Runs an intercepted tunnel one step. Once the handshake is done HTTP is
    /// served on the decrypted stream until it ends.
    pub fn proxy_https(established: bool, event: TunnelEvent) -> (step: (
        TunnelState,
        TunnelAction,
    ))
        ensures
            step.0 == tunnel_next(TunnelState::TlsServing { established }, event),
            step.1 == tunnel_action(TunnelState::TlsServing { established }, event),
    {
        if let Some(failure) = failure(event) {
            return (TunnelState::Closed, TunnelAction::Log(failure));
        }
        match (established, event) {
            (false, TunnelEvent::HandshakeDone) => (
                TunnelState::TlsServing { established: true },
                TunnelAction::ServeHttps,
            ),
            (true, TunnelEvent::Finished) => (TunnelState::Closed, TunnelAction::Finish),
            _ => (TunnelState::TlsServing { established }, TunnelAction::Ignore),
        }
    }

    /// Runs a relayed tunnel one step. Once the connection to the target
    /// stands, bytes are copied in both directions until either side closes.
    pub fn proxy_unknown(connected: bool, event: TunnelEvent) -> (step: (
        TunnelState,
        TunnelAction,
    ))
        ensures
            step.0 == tunnel_next(TunnelState::RawTunneling { connected }, event),
            step.1 == tunnel_action(TunnelState::RawTunneling { connected }, event),
    {
        if let Some(failure) = failure(event) {
            return (TunnelState::Closed, TunnelAction::Log(failure));
        }
        match (connected, event) {
            (false, TunnelEvent::Connected) => (
                TunnelState::RawTunneling { connected: true },
                TunnelAction::Relay,
            ),
            (true, TunnelEvent::Finished) => (TunnelState::Closed, TunnelAction::Finish),
            _ => (TunnelState::RawTunneling { connected }, TunnelAction::Ignore),
        }
    }

    /// Rewrites a request that arrived through an intercepted tunnel so that
    /// the upstream client can route it. Requests of the HTTP/1 family name
    /// at most a path: they receive the scheme and the authority of the
    /// tunnel, and the path `/` when they name none, so that the target is
    /// always complete. Requests of other versions are left as they are.
    /// Nothing but the target is touched.
    pub fn serve_stream(head: &mut RequestHead, scheme: Scheme, authority: &Authority)
        ensures
            final(head).method == old(head).method,
            final(head).version == old(head).version,
            final(head).headers == old(head).headers,
            !old(head).version.is_http1() ==> final(head).uri == old(head).uri,
            old(head).version.is_http1() ==> final(head).uri.scheme == Some(scheme),
            old(head).version.is_http1() ==> final(head).uri.authority == Some(*authority),
            old(head).version.is_http1() ==> match old(head).uri.path_and_query {
                Some(path) => final(head).uri.path_and_query == Some(path),
                None => final(head).uri.path_and_query matches Some(path) && path@ == "/"@,
            },
    {
        if head.version.http1() {
            head.uri.scheme = Some(scheme);
            head.uri.authority = Some(authority.clone());
            if head.uri.path_and_query.is_none() {
                head.uri.path_and_query = Some("/".to_owned());
            }
        }
    }
}

/// Every failure closes the tunnel, whatever state it is in, and is logged
/// unless the tunnel was closed already.
pub proof fn lemma_failure_closes_tunnel(state: TunnelState, event: TunnelEvent)
    requires
        failure_of(event) is Some,
    ensures
        tunnel_next(state, event) == TunnelState::Closed,
        state != TunnelState::Closed ==> tunnel_action(state, event) == TunnelAction::Log(
            failure_of(event)->Some_0,
        ),
{
}

/// A closed tunnel stays closed and nothing more is done for it.
pub proof fn lemma_closed_tunnel_stays_closed(event: TunnelEvent)
    ensures
        tunnel_next(TunnelState::Closed, event) == TunnelState::Closed,
        tunnel_action(TunnelState::Closed, event) == TunnelAction::Ignore,
{
}

/// The first bytes alone decide between interception and relay: a tunnel
/// is intercepted exactly when the bytes read so far are found to open a TLS
/// record, and relayed exactly when they are found not to or the stream ends
/// undecided. A TLS configuration is obtained, and a connection to the target
/// opened, at no other moment.
pub proof fn lemma_sniffing_decides(state: TunnelState, event: TunnelEvent)
    ensures
        tunnel_action(state, event) == TunnelAction::AcceptTls <==> state == TunnelState::Sniffing
            && event == TunnelEvent::Peeked(Sniffed::Tls),
        tunnel_action(state, event) == TunnelAction::ConnectUpstream <==> state
            == TunnelState::Sniffing && (event == TunnelEvent::Peeked(Sniffed::Unknown) || event
            == TunnelEvent::PeekEnded),
        tunnel_action(state, event) == TunnelAction::Peek <==> (state
            == TunnelState::AwaitingUpgrade && event == TunnelEvent::Upgraded) || (state
            == TunnelState::Sniffing && event == TunnelEvent::Peeked(Sniffed::NeedMore)),
{
}

/// The two branches never mix: an intercepted tunnel stays intercepted
/// until it closes, and a relayed tunnel stays relayed until it closes.
pub proof fn lemma_branches_are_kept(state: TunnelState, event: TunnelEvent)
    ensures
        state is TlsServing ==> tunnel_next(state, event) is TlsServing || tunnel_next(state, event)
            == TunnelState::Closed,
        state is RawTunneling ==> tunnel_next(state, event) is RawTunneling || tunnel_next(
            state,
            event,
        ) == TunnelState::Closed,
        tunnel_next(state, event) is TlsServing ==> state is TlsServing || state
            == TunnelState::Sniffing,
        tunnel_next(state, event) is RawTunneling ==> state is RawTunneling || state
            == TunnelState::Sniffing,
{
}

/// The state of a tunnel that started in [`TunnelState::AwaitingUpgrade`] and
/// has seen `events` in order.
pub open spec fn tunnel_state_after(events: Seq<TunnelEvent>) -> TunnelState
    decreases events.len(),
{
    if events.len() == 0 {
        TunnelState::AwaitingUpgrade
    } else {
        tunnel_next(tunnel_state_after(events.drop_last()), events.last())
    }
}

/// What is done for a tunnel that started in
/// [`TunnelState::AwaitingUpgrade`] as it sees `events` in order: one action
/// per event.
pub open spec fn tunnel_trace(events: Seq<TunnelEvent>) -> Seq<TunnelAction> {
    Seq::new(events.len(), |k: int| tunnel_action(tunnel_state_after(events.take(k)), events[k]))
}

/// How far a tunnel has come.
pub open spec fn stage(state: TunnelState) -> nat {
    match state {
        TunnelState::AwaitingUpgrade => 0,
        TunnelState::Sniffing => 1,
        TunnelState::TlsServing { established: false } => 2,
        TunnelState::RawTunneling { connected: false } => 2,
        TunnelState::TlsServing { established: true } => 3,
        TunnelState::RawTunneling { connected: true } => 3,
        TunnelState::Closed => 4,
    }
}

/// A tunnel never goes back: the state after more events is at least as far
/// as the state after fewer.
pub proof fn lemma_tunnel_progresses(events: Seq<TunnelEvent>, earlier: int, later: int)
    requires
        0 <= earlier <= later <= events.len(),
    ensures
        stage(tunnel_state_after(events.take(earlier))) <= stage(
            tunnel_state_after(events.take(later)),
        ),
    decreases later - earlier,
{
    if earlier < later {
        lemma_tunnel_progresses(events, earlier, later - 1);
        assert(events.take(later).drop_last() == events.take(later - 1));
    }
}

/// A tunnel takes one branch only: if it is ever intercepted, no connection
/// to the target is opened for it, neither before nor after; and if it is
/// ever relayed, no TLS configuration is obtained for it.
pub proof fn lemma_tunnel_takes_one_branch(events: Seq<TunnelEvent>, j: int, k: int)
    requires
        0 <= j < events.len(),
        0 <= k < events.len(),
        tunnel_trace(events)[j] == TunnelAction::AcceptTls,
    ensures
        tunnel_trace(events)[k] != TunnelAction::ConnectUpstream,
{
    if tunnel_trace(events)[k] == TunnelAction::ConnectUpstream {
        lemma_sniffing_decides(tunnel_state_after(events.take(j)), events[j]);
        lemma_sniffing_decides(tunnel_state_after(events.take(k)), events[k]);
        assert(events.take(j + 1).drop_last() == events.take(j));
        assert(events.take(j + 1).last() == events[j]);
        assert(events.take(k + 1).drop_last() == events.take(k));
        assert(events.take(k + 1).last() == events[k]);
        if j < k {
            lemma_tunnel_progresses(events, j + 1, k);
        } else if k < j {
            lemma_tunnel_progresses(events, k + 1, j);
        }
    }
}

/// The branch is chosen on bytes that were read: whatever is done for
/// interception or relay happens after a step that asked for the first bytes
/// of the stream.
pub proof fn lemma_peek_precedes_branch(events: Seq<TunnelEvent>, k: int)
    requires
        0 <= k < events.len(),
        tunnel_trace(events)[k] == TunnelAction::AcceptTls || tunnel_trace(events)[k]
            == TunnelAction::ConnectUpstream,
    ensures
        exists|j: int| 0 <= j < k && tunnel_trace(events)[j] == TunnelAction::Peek,
{
    lemma_sniffing_decides(tunnel_state_after(events.take(k)), events[k]);
    lemma_reached_sniffing(events, k);
}

proof fn lemma_reached_sniffing(events: Seq<TunnelEvent>, k: int)
    requires
        0 <= k <= events.len(),
        tunnel_state_after(events.take(k)) == TunnelState::Sniffing,
    ensures
        exists|j: int| 0 <= j < k && tunnel_trace(events)[j] == TunnelAction::Peek,
    decreases k,
{
    if k == 0 {
        assert(events.take(0).len() == 0);
    } else {
        assert(events.take(k).drop_last() == events.take(k - 1));
        assert(events.take(k).last() == events[k - 1]);
        if tunnel_state_after(events.take(k - 1)) == TunnelState::Sniffing {
            lemma_reached_sniffing(events, k - 1);
        } else {
            assert(tunnel_trace(events)[k - 1] == TunnelAction::Peek);
        }
    }
}

/// A tunnel ends once: after a failure has been logged or the tunnel has
/// finished, nothing further is done for it.
pub proof fn lemma_tunnel_ends_once(events: Seq<TunnelEvent>, j: int, k: int)
    requires
        0 <= j < k < events.len(),
        tunnel_trace(events)[j] is Log || tunnel_trace(events)[j] == TunnelAction::Finish,
    ensures
        tunnel_trace(events)[k] == TunnelAction::Ignore,
{
    assert(events.take(j + 1).drop_last() == events.take(j));
    assert(events.take(j + 1).last() == events[j]);
    lemma_tunnel_progresses(events, j + 1, k);
}

} // verus!
