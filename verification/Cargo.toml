[package]
name = "remote_unlock"
version = "0.1.0"
edition = "2021"
publish = false

[dependencies]
base64 = "0.22"
p256 = "0.13"
pkcs8 = "0.10"
spki = "0.7"
rand = "0.8"
uuid = { version = "1", features = ["v4"] }
