[package]
name = "store"
version = "0.1.0"
edition = "2021"
publish = false

[dependencies]
rand = "0.8"
serde = { version = "1", features = ["derive"] }
serde_json = "1"
bincode = "1"
renet = "0.0.10"
log = "0.4"
env_logger = "0.10"
