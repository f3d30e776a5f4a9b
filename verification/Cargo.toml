[package]
name = "topography"
version = "0.1.0"
edition = "2021"
publish = false

[dependencies]
noise = "*"
rand = "*"
rand_chacha = "*"
colored = "*"
