use roxy::error::{BackendError, IntoResponseError};

#[test]
fn every_failure_has_its_message() {
    let cases = [
        (BackendError::ProxySetup, "Failed to setup proxy server."),
        (
            BackendError::MissingOrInvalidAuthority,
            "Missing or invalid authority (host) in the request.",
        ),
        (
            BackendError::MissingOrInvalidHostHeader,
            "Missing host header in the request. Please ensure the 'Host' header is set in the request.",
        ),
        (BackendError::ProxyRequest, "Failed to execute the proxy request."),
        (BackendError::BodyProcessing, "Failed to process the response body."),
        (BackendError::TlsSetupError, "Failed to setup TLS."),
        (BackendError::TlsConfigSetup, "Failed to setup TLS config."),
        (BackendError::UpgradeError, "Failed to upgrade the http request."),
        (BackendError::ReadFromUpgraded, "Failed to read from upgraded stream."),
        (BackendError::TlsStreamError, "Failed to accept TLS stream."),
        (BackendError::ServeConnection, "Failed to serve connection."),
        (BackendError::ProxyUnknown, "Failed to proxy unknown protocol."),
    ];
    for (error, message) in cases {
        assert_eq!(error.display(), message);
    }
}

#[test]
fn address_failure_names_the_address() {
    let error = BackendError::IpAddressParse("localhost".to_string());
    assert_eq!(error.display(), "Failed to parse IP address: localhost");
    let empty = BackendError::IpAddressParse(String::new());
    assert_eq!(empty.display(), "Failed to parse IP address: ");
}

#[test]
fn body_failures_have_their_messages() {
    assert_eq!(IntoResponseError::Infallible.display(), "Infallible error");
    assert_eq!(
        IntoResponseError::BodyError("connection reset".to_string()).display(),
        "Body error: connection reset"
    );
}
