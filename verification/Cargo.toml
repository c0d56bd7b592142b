[package]
name = "elan"
version = "0.1.0"
edition = "2021"
publish = false

[dependencies]
uuid = { version = "=1.29.0", features = ["v4", "serde"] }
serde = { version = "=1.0.229", features = ["derive"] }
serde_json = "=1.0.154"
chrono = { version = "=0.4.45", features = ["serde"] }
anyhow = "=1.0.104"
thiserror = "=2.0.21"
tokio = { version = "=1.54.1", features = ["full"] }
tokio-stream = "=0.1.19"
async-trait = "=0.1.92"
async-stream = "=0.3.6"
futures = "=0.3.34"
axum = "=0.8.9"
reqwest = { version = "=0.12.28", default-features = false, features = ["json"] }
toml = "=0.8.23"
config = { version = "=0.14.1", default-features = false, features = ["toml"] }
tracing = "=0.1.44"
tracing-subscriber = { version = "=0.3.23", features = ["env-filter"] }
crossterm = { version = "=0.28.1", features = ["event-stream"] }
ratatui = "=0.29.0"
tui-textarea = "=0.7.0"
arrow-schema = "*"
arrow-ipc = { version = "*", default-features = false }
