[package]
name = "tsef"
version = "0.3.0"
edition = "2021"
publish = false

[dependencies]
ansi-parser = "*"
path-matchers = "*"
clap = { version = "4", features = ["derive"] }
