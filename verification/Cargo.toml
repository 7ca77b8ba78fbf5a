[package]
name = "bot_controller"
version = "0.1.0"
edition = "2021"
publish = false

[dependencies]
crc16 = "*"
hmac = "*"
sha2 = "*"
base64 = "*"
rand = "*"
serde = { version = "*", features = ["derive"] }
serde_json = "*"
bincode = "1"
