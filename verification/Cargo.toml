[package]
name = "motrix"
version = "0.1.0"
edition = "2021"
publish = false

[dependencies]
base64 = "*"
serde = { version = "*", features = ["derive"] }
serde_json = "*"
tokio = { version = "*", features = ["full"] }
tokio-tungstenite = "*"
futures-util = "*"
dirs = "*"
open = "*"
uuid = { version = "*", features = ["v4"] }
reqwest = { version = "*", default-features = false }
igd-next = "*"
