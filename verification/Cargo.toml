[package]
name = "zerum"
version = "0.5.0"
edition = "2021"
publish = false

[dependencies]
rustpython-parser = "0.3"
serde = { version = "1", features = ["derive"] }
serde_json = "1"
toml = "0.8"
walkdir = "2"
clap = { version = "4", features = ["derive"] }
anyhow = "1"
