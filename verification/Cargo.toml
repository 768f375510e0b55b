[package]
name = "commander"
version = "0.1.0"
edition = "2021"
publish = false

[dependencies]
env_logger = "0.7"
futures-util = "0.3"
log = "0.4"
tokio = { version = "0.2", features = ["full"] }
