[package]
name = "wav_transcribe"
version = "0.1.0"
edition = "2021"
publish = false

[dependencies]
anyhow = "1"
hound = "3.5"
tokio = { version = "1", features = ["macros", "rt-multi-thread"] }
whisper-rs = "0.15"
