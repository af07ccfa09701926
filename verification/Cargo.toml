[package]
name = "mediax"
version = "0.1.0"
edition = "2021"
publish = false

[dependencies]
base64 = "=0.22.1"
image = { version = "=0.25.10", default-features = false, features = ["rayon", "bmp", "dds", "exr", "ff", "gif", "hdr", "ico", "jpeg", "png", "pnm", "qoi", "tga", "tiff", "webp"] }
lofty = "=0.22.4"
serde = { version = "=1.0.229", features = ["derive"] }
serde_json = "=1.0.154"
oxipng = { version = "=9.1.5", default-features = false }
mozjpeg = "=0.10.13"
webp = "=0.3.1"
