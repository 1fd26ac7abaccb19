[package]
name = "a2a_framework"
version = "0.1.0"
edition = "2021"
publish = false

[dependencies]
anyhow = "1"
async-nats = "0.33"
async-trait = "0.1"
chrono = { version = "0.4", features = ["serde"] }
env_logger = "0.10"
futures = "0.3"
log = "0.4"
redis = { version = "0.23", features = ["tokio-comp"] }
serde = { version = "1", features = ["derive"] }
serde_json = "1"
tokio = { version = "1", features = ["full"] }
uuid = { version = "1", features = ["v4", "serde"] }
