//! Configuration of the proxy server.

use vstd::prelude::*;

verus! {

/// Address the proxy listens on when none is configured.
pub const DEFAULT_IP: &'static str = "127.0.0.1";

/// Port the proxy listens on when none is configured.
pub const DEFAULT_PORT: u16 = 5280;

/// Configuration options for the proxy server.
#[derive(Debug, Clone)]
pub struct ProxyConfig {
    /// The IP address the proxy server will listen on.
    pub ip: String,
    /// The port number the proxy server will listen on.
    pub port: u16,
    /// The path to the PEM certificate of the certificate authority; the
    /// built-in one is used when absent.
    pub cert_path: Option<String>,
    /// The path to the PEM private key of the certificate authority; the
    /// built-in one is used when absent.
    pub key_path: Option<String>,
    /// Whether the upstream client may speak HTTPS.
    pub proxy_client_secure: bool,
}

impl Default for ProxyConfig {
    fn default() -> (config: Self)
        ensures
            config.ip@ == DEFAULT_IP@,
            config.port == DEFAULT_PORT,
            config.cert_path is None,
            config.key_path is None,
            config.proxy_client_secure,
    {
        ProxyConfig {
            ip: DEFAULT_IP.to_owned(),
            port: DEFAULT_PORT,
            cert_path: None,
            key_path: None,
            proxy_client_secure: true,
        }
    }
}

} // verus!
