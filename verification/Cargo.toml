[package]
name = "zluda"
version = "0.1.0"
edition = "2021"
publish = false

[dependencies]
regex = "*"
lz4-sys = "*"
