[package]
name = "goose_tools"
version = "0.1.0"
edition = "2021"
publish = false

[dependencies]
serde_json = "1"
uuid = "1"
serde = { version = "1", features = ["derive"] }
rmcp = { version = "1.6", default-features = false, features = ["server"] }
sacp = "10.1"
schemars = "1"
axum = "0.8"
bytes = "1"
futures = "0.3"
tokio = { version = "1", features = ["full"] }
tokio-stream = { version = "0.1", features = ["io-util"] }
tokio-util = "0.7"
tempfile = "3"
tracing = "0.1"
utoipa = { version = "4.2", features = ["axum_extras"] }
anyhow = "1"
async-trait = "0.1"
