[package]
name = "activity-heartbeat"
version = "0.1.0"
edition = "2021"
publish = false

[dependencies]
futures-util = "0.3"
thiserror = "2"
tokio = { version = "1", features = ["macros", "rt", "sync", "time"] }
tokio-util = "0.7"
tonic = { version = "0.14", default-features = false }
tracing = "0.1"
