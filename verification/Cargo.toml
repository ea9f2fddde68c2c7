[package]
name = "sine_music_player"
version = "0.1.0"
edition = "2021"
publish = false

[dependencies]
rand = "*"
image = { version = "*", default-features = false, features = ["png", "jpeg", "gif", "bmp", "webp"] }
lofty = "*"
walkdir = "*"
anyhow = "*"
dirs = "*"
rodio = "*"
rfd = "*"
