[package]
name = "video_thumbnailer"
version = "0.1.0"
edition = "2021"
publish = false

[dependencies]
image = "*"
base64 = "*"
