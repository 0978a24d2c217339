[package]
name = "scaffold"
version = "0.1.0"
edition = "2021"
publish = false

[dependencies]
toml = "0.8"
dialoguer = { version = "0.11", default-features = false }
