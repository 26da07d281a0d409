[package]
name = "controlzone"
version = "0.1.0"
edition = "2021"
publish = false

[dependencies]
anyhow = "*"
clap = { version = "*", features = ["derive"] }
serde = { version = "*", features = ["derive"] }
serde_yaml = "*"
notify = "*"
signal-hook = "*"
nix = { version = "*", features = ["net"] }
