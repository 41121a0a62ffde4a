[package]
name = "leptonica_plumbing"
version = "0.1.0"
edition = "2021"
publish = false

[dependencies]
leptonica-sys = "*"
