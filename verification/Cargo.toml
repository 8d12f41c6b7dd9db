[package]
name = "genmesh"
version = "0.1.0"
edition = "2021"
publish = false

[dependencies]
cgmath = { version = "=0.18.0", features = ["mint"] }
mint = "=0.5.9"
