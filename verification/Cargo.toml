[package]
name = "auth_core"
version = "0.1.0"
edition = "2021"
publish = false

[dependencies]
argon2 = "*"
validator = "*"
serde = { version = "*", features = ["derive"] }
serde_json = "*"
actix-web = "*"
