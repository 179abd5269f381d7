[package]
name = "hanoi_rs"
version = "0.1.0"
edition = "2021"
publish = false

[dependencies]
termion = "2"

[dev-dependencies]
rand = "0.8"
