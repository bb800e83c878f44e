[package]
name = "path_anyhow"
version = "0.1.0"
edition = "2021"
publish = false

[dependencies]
anyhow = "1"

[dev-dependencies]
tempfile = "3"
