[package]
name = "fcm_push"
version = "0.1.0"
edition = "2021"
publish = false

[dependencies]
base64 = "*"
chrono = "*"
open = "*"
rand = "*"
reqwest = { version = "*", default-features = false, features = ["blocking", "json"] }
serde = { version = "*", features = ["derive"] }
serde_json = "*"
sha2 = "*"
urlencoding = "*"
uuid = { version = "*", features = ["v4"] }
