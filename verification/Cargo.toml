[package]
name = "treeraster"
version = "0.1.0"
edition = "2021"
publish = false

[dependencies]
tiny-skia = "*"
image = { version = "*", default-features = false, features = ["png"] }
