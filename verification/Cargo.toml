[package]
name = "raft_service_rs"
version = "0.1.0"
edition = "2021"
publish = false

[dependencies]
anyhow = "=1.0.104"
futures-util = "=0.3.34"
maplit = "=1.0.2"
openraft = { version = "=0.9.25", features = ["storage-v2", "single-term-leader"] }
prost = "=0.14.4"
serde = { version = "=1.0.229", features = ["derive"] }
serde_json = "=1.0.154"
tokio = { version = "=1.54.1", features = ["full"] }
tokio-util = "=0.7.20"
tonic = "=0.14.9"
tracing = "=0.1.44"
