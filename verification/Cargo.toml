[package]
name = "twenty_one"
version = "0.1.0"
edition = "2021"
publish = false

[dependencies]
rand = "*"
