[package]
name = "login_service"
version = "0.1.0"
edition = "2021"
publish = false

[dependencies]
sha-crypt = "0.5"
sqlite = "*"
colored = "2"
serde = { version = "1", features = ["derive"] }
serde_derive = "1"
serde_json = "1"
