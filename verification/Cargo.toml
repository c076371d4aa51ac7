[package]
name = "http_client"
version = "0.1.0"
edition = "2021"
publish = false

[dependencies]
futures-util = { version = "0.3", default-features = false, features = ["std"] }
http = "1"
hyper = { version = "1", features = ["client", "http1", "http2"] }
tower-service = "0.3"
tracing = "0.1"
