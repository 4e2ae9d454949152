[package]
name = "svc_std"
version = "0.1.0"
edition = "2021"
publish = false

[dependencies]
argon2 = { version = "*", features = ["std"] }
uuid = { version = "*", features = ["v4"] }
