[package]
name = "media_player"
version = "0.1.0"
edition = "2021"
publish = false

[dependencies]
infer = "*"
mp3-duration = "*"
rodio = "*"
tokio = { version = "*", features = ["sync", "rt-multi-thread"] }
