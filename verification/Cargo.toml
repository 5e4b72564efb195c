[package]
name = "pusher_rs"
version = "0.1.0"
edition = "2021"
publish = false

[dependencies]
aes = "=0.8.4"
base64 = "=0.22.1"
cbc = { version = "=0.1.2", features = ["alloc"] }
dotenv = "=0.15.0"
futures-util = "=0.3.34"
hex = "=0.4.3"
hmac = "=0.12.1"
log = "=0.4.35"
md5 = "=0.7.0"
rand = "=0.8.8"
reqwest = { version = "=0.11.27", default-features = false, features = ["json"] }
serde = { version = "=1.0.229", features = ["derive"] }
serde_json = "=1.0.154"
sha2 = "=0.10.9"
thiserror = "=1.0.69"
tokio = { version = "=1.54.1", features = ["full"] }
tokio-tungstenite = "=0.20.1"
url = "=2.5.8"
