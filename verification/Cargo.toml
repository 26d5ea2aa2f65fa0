[package]
name = "pargit"
version = "0.1.0"
edition = "2021"
publish = false

[dependencies]
anyhow = "1"
clap = { version = "4", features = ["derive"] }
dialoguer = "*"
env_logger = "*"
git2 = { version = "*", default-features = false }
log = "0.4"
pathdiff = "*"
semver = "0.11"
serde = { version = "1", features = ["derive"] }
strum = "*"
strum_macros = "*"
toml = "*"
toml_edit = "*"
walkdir = "2"
