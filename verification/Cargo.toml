[package]
name = "winloop"
version = "0.1.0"
edition = "2021"
publish = false

[dependencies]
im = "*"
calloop = "0.9"
tracing = "*"
