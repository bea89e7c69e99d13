[package]
name = "brontozaur"
version = "0.1.0"
edition = "2021"
publish = false

[dependencies]
strict_encoding = "1"
torut = "0.2"
