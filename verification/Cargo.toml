[package]
name = "localcert"
version = "0.1.0"
edition = "2021"
publish = false

[dependencies]
async-timer = "0.7"
base64 = "0.13"
http-client = { version = "6.5", default-features = false }
serde = { version = "1", features = ["derive"] }
serde_json = "1"
thiserror = "1"
