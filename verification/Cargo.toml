[package]
name = "replay_control"
version = "0.1.0"
edition = "2021"
publish = false

[dependencies]
axum = "0.7"
urlencoding = "2"
uuid = { version = "1", features = ["v4"] }
serde = { version = "1", features = ["derive"] }
serde_json = "1"
tokio = { version = "1", features = ["rt-multi-thread", "macros", "sync", "time"] }
notify = "6"
reqwest = { version = "0.12", default-features = false, features = ["json"] }
tracing = "0.1"
flate2 = "1"
tar = "0.4"
