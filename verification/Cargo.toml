[package]
name = "webrtc_signaler"
version = "0.1.0"
edition = "2021"
publish = false

[dependencies]
anyhow = "*"
axum = { version = "*", features = ["ws"] }
base64 = "*"
chrono = "*"
dashmap = "*"
env_logger = "*"
futures-util = "*"
hmac = "*"
log = "*"
rust-ini = "*"
serde = { version = "*", features = ["derive"] }
serde_json = "*"
sha1 = "*"
tokio = { version = "*", features = ["full"] }
tower = "*"
tower-http = { version = "*", features = ["fs", "cors"] }
