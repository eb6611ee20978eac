[package]
name = "launcher"
version = "0.1.0"
edition = "2021"
publish = false

[dependencies]
anyhow = "*"
clap = "*"
dirs = "*"
env_logger = "*"
futures = "*"
log = "*"
reqwest = { version = "*", default-features = false }
serde_json = "*"
tokio = { version = "*", features = ["rt"] }
