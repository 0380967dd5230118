[package]
name = "picocodex"
version = "0.1.0"
edition = "2021"
publish = false

[dependencies]
serde_json = "1"
schemars = "0.8"
tokio = { version = "1", features = ["rt"] }
thiserror = "2"
