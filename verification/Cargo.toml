[package]
name = "qwen3_tts"
version = "0.1.0"
edition = "2021"
publish = false

[dependencies]
anyhow = "1"
axum = { version = "0.8", features = ["multipart"] }
hf-hub = { version = "0.4", default-features = false, features = ["ureq"] }
hound = "3.5"
serde = { version = "1", features = ["derive"] }
serde_json = "1"
tokio = { version = "1", features = ["rt-multi-thread", "macros", "net", "sync"] }
