[package]
name = "yac8"
version = "0.1.0"
edition = "2021"
publish = false

[dependencies]
rand = "0.8"
sdl2 = "0.35"
thiserror = "1"
