[package]
name = "muzq"
version = "0.1.0"
edition = "2021"
publish = false

[dependencies]
serde = { version = "1", features = ["derive"] }
ron = "0.5"
termion = "1"
rodio = "0.11"
metaflac = "0.2"
mp3-metadata = "0.3"
