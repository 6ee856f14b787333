[package]
name = "dogfight"
version = "0.1.0"
edition = "2021"
publish = false

[dependencies]
derive-getters = "*"
glam = "0.24"
sdl2 = { version = "0.35", features = ["image"] }
