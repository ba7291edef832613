[package]
name = "amethyst_audio_input"
version = "0.1.0"
edition = "2021"
publish = false

[dependencies]
log = "0.4"
rodio = "0.17"
serde = { version = "1", features = ["derive"] }
