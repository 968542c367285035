[package]
name = "auth_core"
version = "0.1.0"
edition = "2021"
publish = false

[dependencies]
argon2 = "0.5"
jsonwebtoken = "9"
serde_json = "1"
rand_chacha = "0.3"
rand_core = { version = "0.6", features = ["getrandom"] }
