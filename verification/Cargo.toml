[package]
name = "purger"
version = "0.1.0"
edition = "2021"
publish = false

[dependencies]
toml = "*"
clap = { version = "*", features = ["derive"] }
walkdir = "*"
ignore = "*"
rayon = "*"
anyhow = "*"
serde = { version = "*", features = ["derive"] }
serde_json = "*"
dirs = "*"
sys-locale = "*"
