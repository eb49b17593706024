[package]
name = "acme_svc"
version = "0.1.0"
edition = "2021"
publish = false

[dependencies]
dashmap = "6"
uuid = { version = "1", features = ["v7"] }
time = { version = "0.3", features = ["serde", "formatting", "parsing"] }
axum = "0.8"
tokio = { version = "1", features = ["full"] }
tokio-util = "0.7"
serde = { version = "1", features = ["derive"] }
serde_json = "1"
thiserror = "2"
tracing = "0.1"
tracing-subscriber = { version = "0.3", features = ["env-filter", "json"] }
config = { version = "0.15", default-features = false, features = ["toml"] }
toml = "*"
async-trait = "0.1"
metrics-exporter-prometheus = { version = "*", default-features = false }
