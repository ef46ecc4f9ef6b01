[package]
name = "integration_test"
version = "0.1.0"
edition = "2021"
publish = false

[dependencies]
bitcoin = { version = "0.32", default-features = false, features = ["std"] }
corepc-node = "*"
env_logger = "0.9"
rand = "0.8"
