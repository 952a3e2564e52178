[package]
name = "thrushc"
version = "0.1.0"
edition = "2021"
publish = false

[dependencies]
ahash = "=0.8.12"
colored = "=2.2.0"
