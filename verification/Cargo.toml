[package]
name = "libasp"
version = "0.1.0"
edition = "2021"
publish = false

[dependencies]
shlex = "1"
log = "0.4"
serde = { version = "1", features = ["derive"] }
serde_yaml = "0.9"
clap = { version = "4", features = ["derive"] }
chrono = "0.4"
env_logger = "0.11"
