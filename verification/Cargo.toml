[package]
name = "voice_pipeline"
version = "0.1.0"
edition = "2021"
publish = false

[dependencies]
hound = "=3.5.1"
rubato = "0.14"
cpal = "0.15"
whisper-rs = "0.11"
anyhow = "1"
serde = { version = "1", features = ["derive"] }
tokio = { version = "1", features = ["rt-multi-thread"] }
