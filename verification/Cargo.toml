[package]
name = "workdup"
version = "0.1.0"
edition = "2021"
publish = false

[dependencies]
sha2 = "0.10"
serde_json = "1"
url = "2"
serde = { version = "1", features = ["derive"] }
anyhow = "1"
axum = "*"
clap = { version = "4", features = ["derive", "env"] }
dotenvy = "*"
figment = { version = "*", features = ["toml", "env"] }
futures-util = "*"
metrics = "*"
metrics-exporter-prometheus = "*"
metrics-process = "*"
rusqlite = { version = "*", features = ["bundled"] }
shellexpand = "*"
temporalio-client = "*"
temporalio-common = "*"
tokio = { version = "1", features = ["full"] }
tokio-util = "*"
tracing = "*"
tracing-subscriber = { version = "*", features = ["json", "env-filter"] }
humantime-serde = "*"
