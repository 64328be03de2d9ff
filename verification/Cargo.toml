[package]
name = "tiktok_rs"
version = "0.1.0"
edition = "2021"
publish = false

[dependencies]
base64 = "0.21"
fantoccini = "0.19"
libaes = "0.6"
rand = "0.8"
serde = { version = "1", features = ["derive"] }
serde_json = "1"
url = "2"
