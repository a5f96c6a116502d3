[package]
name = "player"
version = "0.1.0"
edition = "2021"
publish = false

[dependencies]
anyhow = "1"
async-std = "1"
cpal = "0.11"
crossterm = { version = "0.17", features = ["event-stream"] }
futures = "0.3"
glob = "0.3"
lru-cache = "0.1"
minimp3 = "0.3"
mp3-metadata = "0.3"
rand = "0.7"
unicode-width = "0.1"
