[package]
name = "dex_math"
version = "0.1.0"
edition = "2021"
publish = false

[dependencies]
spl-token-2022-interface = "=3.1.2"
