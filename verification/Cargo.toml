[package]
name = "femtovg"
version = "0.1.0"
edition = "2021"

[dependencies]
image = { version = "*", default-features = false }
imgref = "*"
rgb = "*"
