//! Decision logic of an intercepting HTTP/HTTPS proxy.
//!
//! The proxy terminates TLS with certificates minted per origin, shows every
//! request and response to a host application, and forwards the exchange.
//! This crate holds what the proxy decides and computes; sockets, tasks and
//! the host callbacks belong to the program around it, which performs the
//! actions this crate asks for and reports back what happened.
//!
//! - [`message`], [`headers`]: the head of an HTTP message and its header
//!   multimap.
//! - [`request`], [`response`], [`ids`]: envelopes that tie a message to the
//!   identifier of its request, and the counter behind the identifiers.
//! - [`client`]: how a request is sanitized before it is sent upstream.
//! - [`service`]: routing of a request and the order of the host callbacks.
//! - [`tunnel`], [`sniff`], [`rewind`]: `CONNECT` tunnels, protocol detection
//!   on their first bytes, and the replay of those bytes.
//! - [`tls`]: leaf certificates and the cache of server configurations.
//! - [`server`], [`config`]: the accept loop and its configuration.
//! - [`logger`], [`error`]: log entries and failures.

pub mod client;
pub mod config;
pub mod error;
pub mod headers;
pub mod ids;
pub mod logger;
pub mod message;
pub mod request;
pub mod response;
pub mod rewind;
pub mod server;
pub mod service;
pub mod sniff;
pub mod tls;
pub mod tunnel;
