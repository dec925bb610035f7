//! The failures the proxy can signal, and the text each one is reported with.

use vstd::prelude::*;
use vstd::string::StringExecFns;

verus! {

/// Everything that can go wrong while setting up or running the proxy.
///
/// The variants carry no underlying cause: whoever performs the failing
/// operation keeps the cause and reports the kind.
#[derive(Debug, Clone, PartialEq, Eq)]
pub enum BackendError {
    /// The listener could not be bound.
    ProxySetup,
    /// A `CONNECT` request named no usable target.
    MissingOrInvalidAuthority,
    /// A request that has to be routed by its `Host` header carried none, or
    /// one that is not an authority.
    MissingOrInvalidHostHeader,
    /// The upstream connection or send failed.
    ProxyRequest,
    /// A frame of the upstream body could not be read.
    BodyProcessing,
    /// The certificate authority material could not be loaded.
    TlsSetupError,
    /// A server TLS configuration could not be built.
    TlsConfigSetup,
    /// The configured bind address, kept here, is not an IP address.
    IpAddressParse(String),
    /// The protocol upgrade after `CONNECT` failed.
    UpgradeError,
    /// The first bytes of the upgraded stream could not be read.
    ReadFromUpgraded,
    /// The TLS handshake with the client failed.
    TlsStreamError,
    /// Serving HTTP on a connection failed.
    ServeConnection,
    /// Relaying an unrecognised protocol failed.
    ProxyUnknown,
}

impl BackendError {
    /// The text a failure is reported with.
    pub open spec fn message(self) -> Seq<char> {
        match self {
            BackendError::ProxySetup => "Failed to setup proxy server."@,
            BackendError::MissingOrInvalidAuthority => "Missing or invalid authority (host) in the request."@,
            BackendError::MissingOrInvalidHostHeader => "Missing host header in the request. Please ensure the 'Host' header is set in the request."@,
            BackendError::ProxyRequest => "Failed to execute the proxy request."@,
            BackendError::BodyProcessing => "Failed to process the response body."@,
            BackendError::TlsSetupError => "Failed to setup TLS."@,
            BackendError::TlsConfigSetup => "Failed to setup TLS config."@,
            BackendError::IpAddressParse(ip) => "Failed to parse IP address: "@ + ip@,
            BackendError::UpgradeError => "Failed to upgrade the http request."@,
            BackendError::ReadFromUpgraded => "Failed to read from upgraded stream."@,
            BackendError::TlsStreamError => "Failed to accept TLS stream."@,
            BackendError::ServeConnection => "Failed to serve connection."@,
            BackendError::ProxyUnknown => "Failed to proxy unknown protocol."@,
        }
    }

    /// Renders the failure as text.
    pub fn display(&self) -> (text: String)
        ensures
            text@ == self.message(),
    {
        match self {
            BackendError::ProxySetup => "Failed to setup proxy server.".to_owned(),
            BackendError::MissingOrInvalidAuthority => "Missing or invalid authority (host) in the request.".to_owned(),
            BackendError::MissingOrInvalidHostHeader => "Missing host header in the request. Please ensure the 'Host' header is set in the request.".to_owned(),
            BackendError::ProxyRequest => "Failed to execute the proxy request.".to_owned(),
            BackendError::BodyProcessing => "Failed to process the response body.".to_owned(),
            BackendError::TlsSetupError => "Failed to setup TLS.".to_owned(),
            BackendError::TlsConfigSetup => "Failed to setup TLS config.".to_owned(),
            BackendError::IpAddressParse(ip) => {
                let mut text = "Failed to parse IP address: ".to_owned();
                text.append(ip.as_str());
                text
            },
            BackendError::UpgradeError => "Failed to upgrade the http request.".to_owned(),
            BackendError::ReadFromUpgraded => "Failed to read from upgraded stream.".to_owned(),
            BackendError::TlsStreamError => "Failed to accept TLS stream.".to_owned(),
            BackendError::ServeConnection => "Failed to serve connection.".to_owned(),
            BackendError::ProxyUnknown => "Failed to proxy unknown protocol.".to_owned(),
        }
    }
}

/// Why the body of a response handed back to the client could not be
/// produced.
#[derive(Debug, Clone, PartialEq, Eq)]
pub enum IntoResponseError {
    /// Stands for a failure that cannot occur: a buffered body never fails.
    Infallible,
    /// Reading the streamed body failed; the text describes the cause.
    BodyError(String),
}

impl IntoResponseError {
    /// The text a body failure is reported with.
    pub open spec fn message(self) -> Seq<char> {
        match self {
            IntoResponseError::Infallible => "Infallible error"@,
            IntoResponseError::BodyError(cause) => "Body error: "@ + cause@,
        }
    }

    /// Renders the failure as text.
    pub fn display(&self) -> (text: String)
        ensures
            text@ == self.message(),
    {
        match self {
            IntoResponseError::Infallible => "Infallible error".to_owned(),
            IntoResponseError::BodyError(cause) => {
                let mut text = "Body error: ".to_owned();
                text.append(cause.as_str());
                text
            },
        }
    }
}

} // verus!
