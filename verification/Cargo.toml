[package]
name = "chuni_leap"
version = "0.1.0"
edition = "2021"
publish = false

[dependencies]
egui = { version = "0.29", default-features = false }
env_logger = { version = "0.11", default-features = false }
leaprs = "*"
log = "0.4"
serde = { version = "1", features = ["derive"] }
serde_json = "1"
