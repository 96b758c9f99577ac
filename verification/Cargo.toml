[package]
name = "se-ingestion-server"
version = "0.1.0"
edition = "2021"
publish = false

[dependencies]
tokio = { version = "=1.54.1", features = ["sync", "rt", "macros"] }
tokio-stream = "=0.1.19"
tokio-util = "=0.7.20"
serde = { version = "=1.0.229", features = ["derive"] }
serde_json = "=1.0.154"
tonic = "=0.14.9"
arrow-flight = { version = "=60.1.0", features = ["flight-sql"] }
arrow-array = "=60.1.0"
tracing = "=0.1.44"
