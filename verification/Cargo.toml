[package]
name = "edgelet_http"
version = "0.1.0"
edition = "2021"
publish = false

[dependencies]
failure = "0.1"
futures = "0.1"
hyper = "0.12"
log = "0.4"
native-tls = "0.2"
openssl = "0.10"
serde = "1.0"
serde_derive = "1.0"
serde_json = "1.0"
tokio = "0.1"
tokio-uds = "0.2"
url = "2"
