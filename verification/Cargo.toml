[package]
name = "journly_auth"
version = "0.1.0"
edition = "2021"
publish = false

[dependencies]
jsonwebtoken = "9"
serde_json = "1"
sha2 = "0.10"
hex = "0.4"
argon2 = "0.5"
base64 = "0.22"
uuid = { version = "1", features = ["v4"] }
chrono = "0.4"
