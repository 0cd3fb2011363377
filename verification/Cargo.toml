[package]
name = "solarized_ansi"
version = "0.1.0"
edition = "2021"
publish = false

[dependencies]
syntect = { version = "=5.3.0", default-features = false }
termion = "=1.5.6"
