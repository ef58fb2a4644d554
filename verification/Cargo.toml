[package]
name = "yunzai_app"
version = "0.1.0"
edition = "2021"
publish = false

[dependencies]
anyhow = "1"
chrono = "0.4"
env_logger = "0.11"
log = "0.4"
notify = "6"
parking_lot = "0.12"
serde = { version = "1", features = ["derive"] }
serde_json = "1"
sysinfo = "0.31"
