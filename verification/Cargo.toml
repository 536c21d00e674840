[package]
name = "retsu"
version = "0.1.0"
edition = "2021"
publish = false

[dependencies]
uuid = { version = "=1.29.0", features = ["v4", "v7", "serde"] }
anyhow = "=1.0.104"
thiserror = "=2.0.21"
serde = { version = "=1.0.229", features = ["derive"] }
serde_json = "=1.0.154"
tokio = { version = "=1.54.1", features = ["rt-multi-thread", "macros", "signal", "time", "sync"] }
tokio-util = "=0.7.20"
tracing = "=0.1.44"
tracing-subscriber = { version = "=0.3.23", features = ["env-filter", "json"] }
actix-web = { version = "=4.18.1", default-features = false, features = ["macros"] }
sqlx = { version = "=0.8.6", default-features = false, features = ["runtime-tokio", "postgres", "uuid"] }
opentelemetry = "=0.31.0"
opentelemetry_sdk = "=0.31.0"
opentelemetry-otlp = { version = "=0.31.1", features = ["grpc-tonic"] }
opentelemetry-prometheus = "=0.31.0"
prometheus = "=0.14.0"
tracing-opentelemetry = "=0.32.1"
