[package]
name = "roxy"
version = "0.1.0"
edition = "2021"
publish = false

[dependencies]
bstr = "1"
http-body-util = "0.1"
hyper = { version = "1", features = ["full"] }
hyper-rustls = { version = "0.27", features = ["http2"] }
hyper-tungstenite = "*"
hyper-util = { version = "0.1", features = ["full"] }
log = "0.4"
moka = { version = "0.12", features = ["sync", "future"] }
parking_lot = "0.12"
rand = "0.8"
rcgen = { version = "0.13", features = ["pem", "x509-parser"] }
rustls = "0.23"
thiserror = "1"
tokio = { version = "1", features = ["full"] }
tokio-rustls = "0.26"
