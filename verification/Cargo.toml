[package]
name = "esrc-cqrs"
version = "0.1.0"
edition = "2021"
publish = false

[dependencies]
esrc = "=0.1.0"
async-nats = { version = "=0.37.0", features = ["service"] }
tokio = { version = "=1.54.1", features = ["full"] }
futures = "=0.3.34"
serde = { version = "=1.0.229", features = ["derive"] }
serde_json = "=1.0.154"
thiserror = "=1.0.69"
tracing = "=0.1.44"
uuid = { version = "=1.29.0", features = ["v4", "serde"] }
