[package]
name = "muse_outdated"
version = "0.1.0"
edition = "2021"
publish = false

[dependencies]
execute = "0.2.8"
serde = { version = "1.0", features = ["derive"] }
serde_json = "1.0"
