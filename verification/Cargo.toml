[package]
name = "failure_kit"
version = "0.1.0"
edition = "2021"
publish = false

[dependencies]
url = "=2.5.8"
base64 = "=0.22.1"
rand = "=0.9.5"
serde = { version = "=1.0.229", features = ["derive"] }
serde_json = "=1.0.154"
tokio = { version = "=1.54.1", features = ["full"] }
chrono = "=0.4.45"
anyhow = "=1.0.104"
parking_lot = "=0.12.5"
axum = "=0.8.9"
crossterm = "=0.28.1"
ratatui = "=0.29.0"
futures = "0.3"
chromiumoxide = "*"
rmcp = { version = "*", features = ["server", "transport-streamable-http-server"] }
