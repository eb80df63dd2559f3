[package]
name = "danjon"
version = "0.1.0"
edition = "2021"
publish = false

[dependencies]
anyhow = "*"
crossterm = "*"
inquire = "*"
rand = "0.8"
strip-ansi-escapes = "*"
tracing = "*"
tracing-subscriber = "*"
yansi = "0.5"
