[package]
name = "flood"
version = "0.1.0"
edition = "2021"
publish = false

[dependencies]
futures-core = "*"
futures-util = "*"
pin-project = "*"
