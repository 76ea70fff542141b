[package]
name = "greenboot"
version = "0.1.0"
edition = "2021"
publish = false

[dependencies]
anyhow = "1"
clap = { version = "4", features = ["derive"] }
config = { version = "0.14", default-features = false, features = ["ini"] }
glob = "0.3"
log = "0.4"
pretty_env_logger = "0.5"
serde = { version = "1", features = ["derive"] }
serde_json = "1"
systemctl = "*"
