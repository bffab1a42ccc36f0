[package]
name = "ambient"
version = "0.1.0"
edition = "2021"
publish = false

[dependencies]
regex = "1"
config = "0.10"
once_cell = "1"
