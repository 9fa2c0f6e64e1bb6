[package]
name = "autodeck"
version = "0.1.0"
edition = "2021"
publish = false

[dependencies]
humantime = "*"
serde = { version = "*", features = ["derive"] }
streamdeck = "*"
structopt = "*"
toml = "*"
tracing = "*"
tracing-subscriber = "*"
