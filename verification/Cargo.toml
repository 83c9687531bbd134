[package]
name = "printnanny_nats"
version = "0.1.0"
edition = "2021"
publish = false

[dependencies]
uuid = { version = "=1.29.0", features = ["v4"] }
getrandom = "=0.4.3"
chrono = "=0.4.45"
serde = { version = "=1.0.229", features = ["derive"] }
serde_json = "=1.0.154"
tokio = { version = "=1.54.1", features = ["full"] }
tokio-util = { version = "=0.7.20", features = ["codec"] }
tokio-serde = { version = "=0.9.0", features = ["json"] }
futures = "=0.3.34"
bytes = "=1.12.1"
async-nats = "=0.51.0"
clap = { version = "=3.2.25", features = ["cargo"] }
log = "=0.4.35"
env_logger = "=0.11.11"
anyhow = "=1.0.104"
thiserror = "=2.0.21"
