[package]
name = "tktkgo_app"
version = "0.1.0"
edition = "2021"
publish = false

[dependencies]
async-trait = "0.1"
axum = "=0.8.9"
blake3 = { version = "=1.8.7", features = ["pure"] }
chrono = { version = "=0.4.45", features = ["serde"] }
diesel = { version = "=2.3.14", default-features = false, features = ["32-column-tables", "postgres_backend", "uuid", "chrono", "serde_json"] }
diesel-async = { version = "=0.9.2", features = ["postgres", "bb8", "async-connection-wrapper", "tokio"] }
diesel_migrations = "=2.3.2"
dotenvy = "0.15"
reqwest = { version = "=0.12.28", default-features = false, features = ["json", "multipart"] }
restate-sdk = "=0.11.1"
schemars = { version = "=1.2.3", features = ["uuid1"] }
serde = { version = "1", features = ["derive"] }
serde_json = "=1.0.154"
thiserror = "2"
tokio = { version = "=1.54.1", features = ["full"] }
tower-http = { version = "=0.6.11", features = ["cors", "fs", "request-id", "trace"] }
tracing = "0.1"
tracing-subscriber = { version = "0.3", features = ["env-filter", "json"] }
uuid = { version = "=1.29.0", features = ["v4", "serde"] }
