[package]
name = "relay_client"
version = "0.1.0"
edition = "2021"
publish = false

[dependencies]
dotenv = "0.15"
env_logger = "0.11"
futures-util = "0.3"
http = "1"
log = "0.4"
reqwest = { version = "0.12", default-features = false, features = ["json"] }
serde = { version = "1", features = ["derive"] }
serde_json = "1"
tokio = { version = "1", features = ["full"] }
tokio-tungstenite = "0.26"
url = "2"
