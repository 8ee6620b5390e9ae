[package]
name = "keybot"
version = "0.1.0"
edition = "2021"
publish = false

[dependencies]
chrono = "=0.4.45"
clap = "=2.34.0"
env_logger = "=0.7.1"
futures = "=0.3.34"
log = "=0.4.34"
rand = "=0.7.3"
regex = "=1.13.1"
reqwest = { version = "=0.10.10", default-features = false, features = ["blocking", "json"] }
rusqlite = "=0.23.1"
serde = { version = "=1.0.229", features = ["derive"] }
serde_json = "=1.0.154"
telegram-bot = "=0.7.0"
tempfile = "=3.27.0"
tokio = { version = "=0.2.25", features = ["macros", "rt-threaded", "time"] }
toml = "=0.5.11"
uuid = { version = "=0.8.2", features = ["v1"] }
