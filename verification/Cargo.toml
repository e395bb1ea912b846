[package]
name = "spotify_skill"
version = "0.1.0"
edition = "2021"
publish = false

[dependencies]
serde_json = "1"
serde = { version = "1", features = ["derive"] }
url = "2"
crossbeam-channel = "0.5"
futures-channel = "0.3"
futures-util = "0.3"
tokio = { version = "1", features = ["macros", "rt-multi-thread"] }
tokio-tungstenite = "0.20"
env_logger = "0.10"
