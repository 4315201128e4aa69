[package]
name = "hltas_cleaner"
version = "0.1.0"
edition = "2021"
publish = false

[dependencies]
hltas = "*"
clap = { version = "*", features = ["derive"] }
