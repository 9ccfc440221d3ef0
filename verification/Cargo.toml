[package]
name = "google_proxy"
version = "0.1.0"
edition = "2021"
publish = false

[dependencies]
genai-types = "*"
serde = { version = "1", features = ["derive"] }
serde_json = "1"
