[package]
name = "raspivid_stream"
version = "0.1.0"
edition = "2021"
publish = false

[dependencies]
serde = { version = "1", features = ["derive"] }
toml = "*"
log = "0.4"
env_logger = "*"
rocket = "*"
