[package]
name = "subspedia"
version = "0.1.0"
edition = "2021"
publish = false

[dependencies]
failure = "0.1"
failure_derive = "0.1"
futures = "0.1"
hyper = "0.12"
hyper-tls = "0.3"
serde = "1"
serde_derive = "1"
serde_json = "1"
tokio = "0.1"
