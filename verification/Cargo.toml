[package]
name = "rs_imessage"
version = "0.1.0"
edition = "2021"
publish = false

[dependencies]
chrono = { version = "=0.4.45", features = ["serde"] }
serde = { version = "=1.0.229", features = ["derive"] }
serde_json = "=1.0.154"
clap = { version = "=4.6.7", features = ["derive", "env"] }
rusqlite = { version = "=0.41.1", features = ["bundled"] }
notify = "=8.2.1"
tokio = { version = "=1.54.1", features = ["rt-multi-thread", "sync", "net", "macros"] }
tokio-stream = { version = "=0.1.19", features = ["sync"] }
axum = "=0.8.9"
tracing-subscriber = { version = "=0.3.23", features = ["env-filter"] }
uuid = { version = "=1.29.0", features = ["v4"] }
thiserror = "=2.0.21"
