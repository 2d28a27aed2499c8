[package]
name = "mememeow_core"
version = "0.1.0"
edition = "2021"
publish = false

[dependencies]
dirs = "*"
env_logger = "*"
log = "0.4"
serde = { version = "1", features = ["derive"] }
serde_json = "1"
uuid = { version = "1", features = ["v4"] }
