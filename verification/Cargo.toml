[package]
name = "devutils"
version = "0.1.0"
edition = "2021"
publish = false

[dependencies]
base64 = "0.22"
chrono = "0.4"
md5 = "0.7"
regex = "1"
serde_json = "1"
sha2 = "0.10"
urlencoding = "2"
uuid = { version = "1", features = ["v4"] }
