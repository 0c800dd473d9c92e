[package]
name = "sso"
version = "0.1.0"
edition = "2021"
publish = false

[dependencies]
chrono = "0.4"
jsonwebtoken = "9"
mini-moka = "0.10"
once_cell = "1"
openidconnect = "3"
serde = { version = "1", features = ["derive"] }
serde_json = "1"
url = "2"
