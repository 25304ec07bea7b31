[package]
name = "imgconv"
version = "0.1.0"
edition = "2021"
publish = false

[dependencies]
image = { version = "*", default-features = false, features = ["jpeg", "png", "gif", "bmp", "tiff", "webp"] }
kamadak-exif = "*"
libheif-rs = "*"
turbojpeg = { version = "*", features = ["image"] }
rayon = "*"
serde = { version = "*", features = ["derive"] }
