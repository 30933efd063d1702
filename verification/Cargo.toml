[package]
name = "image_compressor"
version = "0.1.0"
edition = "2021"
publish = false

[dependencies]
image = "0.24"
mozjpeg = { version = "0.9", default-features = false }
