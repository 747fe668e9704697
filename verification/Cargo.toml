[package]
name = "buddy2api"
version = "0.1.0"
edition = "2021"
publish = false

[dependencies]
axum = "0.8"
reqwest = { version = "0.12", default-features = false, features = ["json", "stream"] }
rust-embed = "8"
serde_json = "1"
tokio = { version = "1", features = ["net", "rt", "sync"] }
