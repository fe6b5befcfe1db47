[package]
name = "scheme_cycler"
version = "0.1.0"
edition = "2021"
publish = false

[dependencies]
anyhow = "1"
regex = "1"
yaml-rust = "*"
