[package]
name = "brew_sandbox"
version = "0.1.0"
edition = "2021"
publish = false

[dependencies]
anyhow = "*"
landlock = "*"
tracing = "*"
tracing-subscriber = "*"
