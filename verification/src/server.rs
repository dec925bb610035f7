//! The proxy server: its parts, and the decisions of its accept loop.

use crate::client::HttpClient;
use crate::config::ProxyConfig;
use crate::error::BackendError;
use crate::tls::TlsCertCache;
use rustls::ClientConfig;
use std::sync::Arc;
use vstd::prelude::*;

verus! {

/// How connections are served, on the listener as well as inside an
/// intercepted tunnel.
#[derive(Clone, Copy, Debug, PartialEq, Eq, Structural)]
pub struct ServerOptions {
    /// HTTP/1 header names are read with their case recorded.
    pub preserve_header_case: bool,
    /// HTTP/1 header names without a recorded case are written in title case.
    pub title_case_headers: bool,
    /// HTTP/2 connections accept the extended `CONNECT` protocol.
    pub enable_connect_protocol: bool,
}

/// Where the listener stands.
#[derive(Clone, Copy, Debug, PartialEq, Eq, Structural)]
pub enum ListenerState {
    /// The configured address is being parsed.
    Resolving,
    /// The address is known; the socket is being bound.
    Binding,
    /// The socket is bound; connections are being accepted.
    Accepting,
    /// The listener could not be set up.
    Failed,
}

/// What happened to the listener.
#[derive(Clone, Copy, Debug, PartialEq, Eq, Structural)]
pub enum ListenerEvent {
    /// The configured address is an IP address.
    AddressParsed,
    /// The configured address is not an IP address.
    AddressInvalid,
    /// The socket is bound.
    Bound,
    /// Binding the socket failed.
    BindFailed,
    /// A connection was accepted.
    Accepted,
    /// Accepting a connection failed.
    AcceptFailed,
}

/// What the listener does next.
#[derive(Debug, Clone, PartialEq, Eq)]
pub enum ListenerAction {
    /// Bind the socket to the parsed address and this port.
    Bind(u16),
    /// Wait for the next connection.
    Accept,
    /// Serve the accepted connection on a task of its own, with these
    /// options, and wait for the next connection.
    Serve(ServerOptions),
    /// Log the failed accept and wait for the next connection.
    LogAcceptError,
    /// Give up and report this failure to the caller.
    Fail(BackendError),
    /// Nothing: the event does not belong to the state.
    Ignore,
}

/// The options every connection is served with: header case is preserved,
/// other header names are written in title case, and HTTP/2 accepts the
/// extended `CONNECT` protocol.
pub open spec fn serving_options() -> ServerOptions {
    ServerOptions {
        preserve_header_case: true,
        title_case_headers: true,
        enable_connect_protocol: true,
    }
}

/// The state the listener moves to on an event.
pub open spec fn listener_next(state: ListenerState, event: ListenerEvent) -> ListenerState {
    match (state, event) {
        (ListenerState::Resolving, ListenerEvent::AddressParsed) => ListenerState::Binding,
        (ListenerState::Resolving, ListenerEvent::AddressInvalid) => ListenerState::Failed,
        (ListenerState::Binding, ListenerEvent::Bound) => ListenerState::Accepting,
        (ListenerState::Binding, ListenerEvent::BindFailed) => ListenerState::Failed,
        _ => state,
    }
}

/// What the listener of a server with the given configuration does on an
/// event.
pub open spec fn listener_action(
    config: ProxyConfig,
    state: ListenerState,
    event: ListenerEvent,
) -> ListenerAction {
    match (state, event) {
        (ListenerState::Resolving, ListenerEvent::AddressParsed) => ListenerAction::Bind(
            config.port,
        ),
        (ListenerState::Resolving, ListenerEvent::AddressInvalid) => ListenerAction::Fail(
            BackendError::IpAddressParse(config.ip),
        ),
        (ListenerState::Binding, ListenerEvent::Bound) => ListenerAction::Accept,
        (ListenerState::Binding, ListenerEvent::BindFailed) => ListenerAction::Fail(
            BackendError::ProxySetup,
        ),
        (ListenerState::Accepting, ListenerEvent::Accepted) => ListenerAction::Serve(
            serving_options(),
        ),
        (ListenerState::Accepting, ListenerEvent::AcceptFailed) => ListenerAction::LogAcceptError,
        _ => ListenerAction::Ignore,
    }
}

/// The proxy server: configuration, upstream client and certificate cache.
pub struct CoreProxyServer {
    config: ProxyConfig,
    client: Arc<HttpClient>,
    tls_cert_cache: TlsCertCache,
}

impl CoreProxyServer {
    /// The configuration the server was created with.
    pub closed spec fn config_view(&self) -> ProxyConfig {
        self.config
    }

    /// The upstream client of the server.
    pub closed spec fn client_view(&self) -> HttpClient {
        *self.client
    }

    /// The certificate cache of the server.
    pub closed spec fn cache_view(&self) -> TlsCertCache {
        self.tls_cert_cache
    }

    /// Creates a server from its configuration and its certificate cache.
    ///
    /// The upstream client speaks HTTPS exactly when the configuration allows
    /// it. It then needs the TLS configuration built from the platform's
    /// trusted roots, handed in as `native_roots`; without it the setup fails
    /// with [`BackendError::TlsSetupError`].
    pub fn new(
        config: ProxyConfig,
        native_roots: Option<ClientConfig>,
        tls_cert_cache: TlsCertCache,
    ) -> (server: Result<Self, BackendError>)
        ensures
            config.proxy_client_secure && native_roots is None ==> server == Err::<
                Self,
                BackendError,
            >(BackendError::TlsSetupError),
            !(config.proxy_client_secure && native_roots is None) ==> (server matches Ok(
                created,
            ) && {
                &&& created.config_view() == config
                &&& created.cache_view() == tls_cert_cache
                &&& created.client_view().secure() == config.proxy_client_secure
                &&& config.proxy_client_secure ==> created.client_view().tls_view() == native_roots
            }),
    {
        match HttpClient::new(config.proxy_client_secure, native_roots) {
            Ok(client) => Ok(CoreProxyServer { config, client: Arc::new(client), tls_cert_cache }),
            Err(error) => Err(error),
        }
    }

    /// The configuration the server was created with.
    pub fn config(&self) -> (config: &ProxyConfig)
        ensures
            *config == self.config_view(),
    {
        &self.config
    }

    /// The upstream client shared by all connections.
    pub fn client(&self) -> (client: &Arc<HttpClient>)
        ensures
            **client == self.client_view(),
    {
        &self.client
    }

    /// The certificate cache shared by all connections.
    pub fn tls_cert_cache(&self) -> (cache: &TlsCertCache)
        ensures
            *cache == self.cache_view(),
    {
        &self.tls_cert_cache
    }

    /// The options every connection is served with.
    pub fn server_options() -> (options: ServerOptions)
        ensures
            options == serving_options(),
    {
        ServerOptions {
            preserve_header_case: true,
            title_case_headers: true,
            enable_connect_protocol: true,
        }
    }

    /// Runs the listener one step: given where it stands and what happened,
    /// says where it stands now and what to do next.
    ///
    /// The listener starts in [`ListenerState::Resolving`] with the parsing of
    /// the configured address. A bad address or a failed bind ends it with the
    /// failure to report. Once it accepts connections it does so for good:
    /// an accepted connection is served on its own task, a failed accept is
    /// logged, and either way the next connection is awaited.
    pub fn start(&self, state: ListenerState, event: ListenerEvent) -> (step: (
        ListenerState,
        ListenerAction,
    ))
        ensures
            step.0 == listener_next(state, event),
            step.1 == listener_action(self.config_view(), state, event),
    {
        match (state, event) {
            (ListenerState::Resolving, ListenerEvent::AddressParsed) => (
                ListenerState::Binding,
                ListenerAction::Bind(self.config.port),
            ),
            (ListenerState::Resolving, ListenerEvent::AddressInvalid) => (
                ListenerState::Failed,
                ListenerAction::Fail(BackendError::IpAddressParse(self.config.ip.clone())),
            ),
            (ListenerState::Binding, ListenerEvent::Bound) => (
                ListenerState::Accepting,
                ListenerAction::Accept,
            ),
            (ListenerState::Binding, ListenerEvent::BindFailed) => (
                ListenerState::Failed,
                ListenerAction::Fail(BackendError::ProxySetup),
            ),
            (ListenerState::Accepting, ListenerEvent::Accepted) => (
                ListenerState::Accepting,
                ListenerAction::Serve(Self::server_options()),
            ),
            (ListenerState::Accepting, ListenerEvent::AcceptFailed) => (
                ListenerState::Accepting,
                ListenerAction::LogAcceptError,
            ),
            _ => (state, ListenerAction::Ignore),
        }
    }
}

/// A listener that accepts connections goes on accepting whatever happens:
/// no event, and in particular no failed accept, takes it out of
/// [`ListenerState::Accepting`] or makes it give up.
pub proof fn lemma_accepting_is_kept(config: ProxyConfig, event: ListenerEvent)
    ensures
        listener_next(ListenerState::Accepting, event) == ListenerState::Accepting,
        !(listener_action(config, ListenerState::Accepting, event) is Fail),
{
}

/// The listener gives up in exactly two situations: the configured address
/// is not an IP address, or the socket cannot be bound. A listener that has
/// given up stays so.
pub proof fn lemma_listener_failures(
    config: ProxyConfig,
    state: ListenerState,
    event: ListenerEvent,
)
    ensures
        listener_action(config, state, event) is Fail <==> listener_next(state, event)
            == ListenerState::Failed && state != ListenerState::Failed,
        listener_action(config, state, event) is Fail <==> (state == ListenerState::Resolving
            && event == ListenerEvent::AddressInvalid) || (state == ListenerState::Binding && event
            == ListenerEvent::BindFailed),
        listener_next(ListenerState::Failed, event) == ListenerState::Failed,
{
}

} // verus!
