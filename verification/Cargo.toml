[package]
name = "oogl"
version = "0.1.0"
edition = "2021"
publish = false

[dependencies]
oorandom = "11"
getrandom = "0.2"
