[package]
name = "tipp10w"
version = "0.1.0"
edition = "2021"
publish = false

[dependencies]
rusqlite = { version = "=0.40.2", features = ["bundled", "fallible_uint"] }
chrono = "=0.4.45"
ratatui = "=0.30.2"
log = "=0.4.34"
env_logger = "=0.11.11"
