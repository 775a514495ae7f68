[package]
name = "agent2mqtt"
version = "0.1.0"
edition = "2021"
publish = false

[dependencies]
serde_json = "*"
log = "*"
clap = { version = "*", features = ["derive"] }
paho-mqtt = "*"
tokio = { version = "*", features = ["full"] }
tokio-seqpacket = "*"
tokio-stream = "*"
