[package]
name = "codex_shim"
version = "0.1.0"
edition = "2021"
publish = false

[dependencies]
chrono = "0.4"
hyper = { version = "0.14", features = ["server", "http1", "tcp"] }
log = "0.4"
opentelemetry = { version = "0.23", features = ["logs", "trace"] }
opentelemetry-otlp = { version = "0.16", features = ["logs", "trace", "grpc-tonic"] }
opentelemetry_sdk = { version = "0.23", features = ["logs", "trace", "rt-tokio"] }
serde = { version = "1", features = ["derive"] }
serde_json = "1"
thiserror = "1"
tokio = { version = "1", features = ["full"] }
tracing = "0.1"
tracing-appender = "0.2"
tracing-log = "0.2"
tracing-opentelemetry = "0.24"
tracing-subscriber = { version = "0.3", features = ["env-filter"] }
uuid = { version = "1", features = ["v4"] }
