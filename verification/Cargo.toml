[package]
name = "aoyama"
version = "0.1.0"
edition = "2021"
publish = false

[dependencies]
chrono = "*"
serde_json = "*"
serde = { version = "*", features = ["derive"] }
