[package]
name = "force_smith"
version = "0.1.0"
edition = "2021"
publish = false

[dependencies]
bevy_math = { version = "0.17", default-features = false, features = ["std"] }
rand = "0.10"
serde = { version = "1", features = ["derive"] }
serde_json = "1"
