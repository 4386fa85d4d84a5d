[package]
name = "wit_ai"
version = "0.1.0"
edition = "2021"
publish = false

[dependencies]
hyper = { version = "0.14", features = ["client", "http1", "http2", "tcp"] }
hyper-tls = "0.5"
itertools = "0.10"
serde = { version = "1", features = ["derive"] }
serde_json = "1"
urlencoding = "2"
