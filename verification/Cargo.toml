[package]
name = "linalg32"
version = "0.1.0"
edition = "2021"
publish = false

[dependencies]
softfp = "=0.1.0"
