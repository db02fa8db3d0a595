[package]
name = "cors_proxy"
version = "0.1.0"
edition = "2021"
publish = false

[dependencies]
http = "1"
axum = "0.7"
clap = { version = "4", features = ["derive"] }
hyper = "1"
hyper-tls = "0.6"
hyper-util = { version = "0.1", features = ["client-legacy", "http1", "tokio"] }
tokio = { version = "1", features = ["full"] }
tracing = "0.1"
tracing-subscriber = "0.3"
