[package]
name = "reqwest_builder_retry"
version = "0.1.0"
edition = "2021"
publish = false

[dependencies]
serde_json = "1"
serde = "1"
reqwest = { version = "0.12", default-features = false }
tokio = { version = "1", features = ["time"] }
rand = "0.9"
