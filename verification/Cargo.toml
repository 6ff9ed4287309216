[package]
name = "bot-runner"
version = "0.1.0"
edition = "2021"
publish = false

[dependencies]
chrono = { version = "0.4", default-features = false, features = ["clock", "std"] }
serde_json = "1"
anyhow = "1"
