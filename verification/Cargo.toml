[package]
name = "splinter"
version = "0.1.0"
edition = "2021"
publish = false

[dependencies]
crossbeam = "0.8"
either = "1"
flume = "0.11"
futures = "0.3"
pin-project-lite = "0.2"
serde_json = "1"
thiserror = "2"
tokio = { version = "1", features = ["sync", "rt", "macros", "time"] }
tracing = "0.1"
twilight-gateway = "0.16"
twilight-model = "0.16"
