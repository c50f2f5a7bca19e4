[package]
name = "mcpg_plugin_observability_otlp"
version = "0.1.0"
edition = "2021"
publish = false

[dependencies]
metrics = "0.24"
opentelemetry = "0.28"
opentelemetry-otlp = { version = "0.28", default-features = false, features = ["grpc-tonic", "trace"] }
opentelemetry_sdk = "0.28"
parking_lot = "0.12"
serde = { version = "1", features = ["derive"] }
serde_json = "1"
tokio = { version = "1", features = ["rt-multi-thread"] }
tracing = "0.1"
