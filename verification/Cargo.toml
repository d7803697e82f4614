[package]
name = "collab_sync"
version = "0.1.0"
edition = "2021"
publish = false

[dependencies]
dashmap = "*"
tokio = { version = "*", features = ["full"] }
serde_json = "*"
uuid = { version = "*", features = ["v4"] }
axum = { version = "*", features = ["ws"] }
futures-util = "*"
tracing = "*"
tracing-subscriber = "*"
