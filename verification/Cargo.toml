[package]
name = "axum_valid"
version = "0.1.0"
edition = "2021"
publish = false

[dependencies]
axum = { version = "0.6", default-features = false, features = ["query"] }
validator = "0.16"

[dev-dependencies]
serde_json = "1"
