[package]
name = "media_acquire"
version = "0.1.0"
edition = "2021"
publish = false

[dependencies]
m3u8-rs = "*"
tokio = { version = "*", features = ["full"] }
tempfile = "*"
yt-dlp = "*"
