[package]
name = "tag"
version = "0.1.0"
edition = "2021"
publish = false

[dependencies]
chrono = { version = "0.4", features = ["serde"] }
nix = "0.19"
serde = { version = "1", features = ["derive"] }
serde_yaml = "0.8"
structopt = "0.3"
tempfile = "3"
whoami = "1"
