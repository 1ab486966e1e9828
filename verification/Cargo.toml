[package]
name = "dialplan"
version = "0.1.0"
edition = "2021"
publish = false

[dependencies]
futures = "0.3"
hyper = { version = "0.14", features = ["client", "http1"] }
openssl = "0.10"
tokio = { version = "1", features = ["net", "time", "rt", "io-util"] }
tokio-openssl = "0.6"
