[package]
name = "russimp"
version = "0.1.0"
edition = "2021"
publish = false

[dependencies]
russimp-sys = "*"
