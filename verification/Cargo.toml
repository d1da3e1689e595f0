[package]
name = "spatialos"
version = "0.1.0"
edition = "2021"
publish = false

[dependencies]
bytevec = "*"
spatialos-sys = "*"
