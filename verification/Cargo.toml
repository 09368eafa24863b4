[package]
name = "langfuse"
version = "0.1.0"
edition = "2021"
publish = false

[dependencies]
base64 = "=0.22.1"
serde = { version = "=1.0.229", features = ["derive"] }
serde_json = "=1.0.154"
chrono = "=0.4.45"
uuid = { version = "=1.29.0", features = ["v4"] }
dashmap = "=6.2.1"
futures = "=0.3.34"
async-trait = "=0.1.92"
backoff = "=0.4.0"
thiserror = "=2.0.21"
tracing = "=0.1.44"
pin-project-lite = "=0.2.17"
tokio = { version = "=1.54.1", features = ["rt-multi-thread", "macros", "sync", "time", "fs"] }
reqwest = { version = "=0.12.28", default-features = false, features = ["json", "rustls-tls"] }
opentelemetry = "=0.33.1"
opentelemetry_sdk = { version = "=0.33.1", features = ["rt-tokio"] }
opentelemetry-otlp = { version = "=0.33.1", default-features = false, features = ["http-proto", "reqwest-client", "trace"] }
async-openai = { version = "=0.43.0", features = ["chat-completion", "embedding"] }
