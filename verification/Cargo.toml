[package]
name = "side_conversation"
version = "0.1.0"
edition = "2021"
publish = false

[dependencies]
color-eyre = "0.6"
serde = { version = "1", features = ["derive"] }
serde_json = "1"
tokio = { version = "1", features = ["rt", "sync"] }
tracing = "0.1"
uuid = { version = "1", features = ["v4"] }
