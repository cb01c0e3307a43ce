[package]
name = "quad-bt"
version = "0.1.0"
edition = "2021"
publish = false

[dependencies]
miniquad = { version = "*", features = ["log-impl"] }
once_cell = "*"
