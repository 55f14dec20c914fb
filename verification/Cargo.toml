[package]
name = "aes128"
version = "0.1.0"
edition = "2021"
publish = false

[dev-dependencies]
aes = "0.8"
cipher = "0.4"
