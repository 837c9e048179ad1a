[package]
name = "radiant"
version = "0.1.0"
edition = "2021"
publish = false

[dependencies]
uuid = { version = "1", features = ["v4"] }
serde = { version = "1", features = ["derive"] }
serde_json = "1"
anyhow = "1"
log = "0.4"
pretty_env_logger = "0.5"
clap = { version = "4", features = ["derive"] }
crossbeam-channel = "0.5"
spin_sleep = "1"
dmx = "*"
