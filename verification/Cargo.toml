[package]
name = "roblox_api"
version = "0.1.0"
edition = "2021"
publish = false

[dependencies]
base64 = "=0.22.1"
serde_json = "=1.0.154"
serde = { version = "=1.0.229", features = ["derive"] }
reqwest = { version = "=0.12.28", default-features = false, features = ["json", "multipart"] }
chrono = "=0.4.45"
uuid = { version = "=1.29.0", features = ["v4"] }
p256 = "=0.13.2"
sha2 = "=0.10.9"
