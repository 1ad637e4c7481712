[package]
name = "chat_application"
version = "0.1.0"
edition = "2021"
publish = false

[dependencies]
ring = "0.17"
base64 = "0.22"
uuid = { version = "1", features = ["v4"] }
chrono = "0.4"
anyhow = "1"
serde = { version = "1", features = ["derive"] }
serde_json = "1"
tokio = { version = "1", features = ["full"] }
rusqlite = { version = "0.31", features = ["bundled"] }
dotenv = "0.15"
env_logger = { version = "0.11", default-features = false }
iced = { version = "0.12", default-features = false, features = ["tokio"] }
