[package]
name = "enarx_config"
version = "0.1.0"
edition = "2021"
publish = false

[dependencies]
serde = { version = "1", features = ["derive"] }
url = { version = "2", features = ["serde"] }
toml = "0.8"
