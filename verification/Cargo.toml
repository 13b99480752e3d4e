[package]
name = "payload_events"
version = "0.1.0"
edition = "2021"
publish = false

[dependencies]
serde_json = "1"
tl = "0.7"
chrono = "0.4"
tokio = { version = "1", features = ["rt-multi-thread", "macros", "net"] }
hyper = { version = "1", features = ["server", "http1"] }
hyper-util = { version = "0.1", features = ["tokio"] }
http-body-util = "0.1"
bytes = "1"
