[package]
name = "request_tracing"
version = "0.1.0"
edition = "2021"
publish = false

[dependencies]
uuid = { version = "1", features = ["v4"] }
actix-web = "4"
tokio = { version = "1", features = ["rt"] }
tonic = "0.8"
hyper = "0.14"
tracing = "0.1"
tracing-futures = "0.2"
futures = "0.3"
