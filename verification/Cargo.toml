[package]
name = "web_bff"
version = "0.1.0"
edition = "2021"
publish = false

[dependencies]
axum = "0.7"
tokio = { version = "1", features = ["full"] }
serde = { version = "1", features = ["derive"] }
async-channel = "2"
log = "0.4"
env_logger = "0.11"
auth_client = "*"
