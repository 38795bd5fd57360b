[package]
name = "media_lib"
version = "0.1.0"
edition = "2021"
publish = false

[dependencies]
ffmpeg-next = "*"
libloading = "*"
stabby = "*"
clap = { version = "*", features = ["derive"] }
log = "*"
env_logger = "*"
turbojpeg = "*"
mozjpeg = "*"
