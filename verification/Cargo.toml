[package]
name = "matplotlib"
version = "0.1.0"
edition = "2021"
publish = false

[dependencies]
cpython = "*"
