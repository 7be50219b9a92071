[package]
name = "aquila"
version = "0.1.0"
edition = "2021"
publish = false

[dependencies]
uuid = { version = "1", features = ["v4"] }
prost = "*"
tucana = "*"
tonic = "*"
tokio = { version = "1", features = ["full"] }
tokio-stream = "*"
futures = "0.3"
async-nats = "*"
log = "0.4"
env_logger = "*"
serde = { version = "1", features = ["derive"] }
serde_json = "1"
