[package]
name = "echo"
version = "0.1.0"
edition = "2021"
publish = false

[dependencies]
reqwest = "0.12"
serde_json = { version = "1", features = ["raw_value"] }
tokio = { version = "1", features = ["rt"] }
