[package]
name = "sc_helper"
version = "0.1.0"
edition = "2021"
publish = false

[dependencies]
anyhow = "1"
env_logger = "0.11"
hex = "0.4"
hmac = "0.12"
log = "0.4"
nix = { version = "0.29", features = ["fs", "process", "signal", "user"] }
serde = { version = "1", features = ["derive"] }
serde_json = "1"
sha2 = "0.10"
tokio = { version = "1", features = ["io-util", "macros", "net", "process", "rt", "signal", "sync", "time"] }
