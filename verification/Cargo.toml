[package]
name = "sc_compression"
version = "0.1.0"
edition = "2021"

[dependencies]
rust-lzma = "*"
lzham = "*"
