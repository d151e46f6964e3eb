[package]
name = "lp"
version = "0.1.0"
edition = "2021"
publish = false

[dependencies]
chrono = "*"
oping = "*"
signal-hook = "*"
