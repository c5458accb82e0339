[package]
name = "agent_server"
version = "0.1.0"
edition = "2021"
publish = false

[dependencies]
regex = "=1.13.1"
md-5 = "=0.10.6"
sha2 = "=0.10.9"
zstd = "=0.13.4"
reqwest = { version = "=0.12.28", default-features = false }
base64 = "=0.22.1"
chrono = "=0.4.45"
serde = { version = "=1.0.229", features = ["derive"] }
serde_json = "=1.0.154"
uuid = { version = "=1.29.0", features = ["v4"] }
rusqlite = { version = "=0.32.1", features = ["bundled"] }
tokio = { version = "=1.54.1", features = ["full"] }
axum = { version = "=0.8.9", features = ["ws", "multipart"] }
tower-http = { version = "=0.6.11", features = ["cors"] }
tracing = "=0.1.44"
tracing-subscriber = "=0.3.23"
async-trait = "=0.1.92"
futures = "=0.3.34"
tokio-util = "=0.7.20"
tokio-tungstenite = "=0.29.0"
