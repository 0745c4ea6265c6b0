[package]
name = "perseus_compress"
version = "0.1.0"
edition = "2021"
publish = false

[dependencies]
brotli = "*"
flate2 = "*"
glob = "*"
