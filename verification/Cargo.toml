[package]
name = "music_presence"
version = "0.1.0"
edition = "2021"
publish = false

[dependencies]
clap = { version = "4", features = ["derive"] }
discord-rich-presence = "*"
env_logger = "0.11"
image = "0.25"
log = "0.4"
reqwest = { version = "0.12", default-features = false, features = ["multipart", "stream"] }
serde_json = "1"
tokio = { version = "1", features = ["full"] }
urlencoding = "2"
