[package]
name = "media_renamer"
version = "0.1.0"
edition = "2021"
publish = false

[dependencies]
chrono = "0.4"
clap = { version = "4", features = ["derive"] }
ffmpeg-next = "*"
serde_json = "1"
tinytemplate = "1"
