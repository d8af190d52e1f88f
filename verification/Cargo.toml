[package]
name = "video_player"
version = "0.1.0"
edition = "2021"
publish = false

[dependencies]
anyhow = "=1.0.104"
clap = { version = "=4.6.7", features = ["derive"] }
gstreamer = "0.23"
gstreamer-app = "0.23"
gstreamer-video = "0.23"
muldiv = "=1.0.1"
rgb = "=0.8.53"
slint = { version = "=1.18.1", default-features = false, features = ["std", "compat-1-2"] }
