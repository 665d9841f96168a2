[package]
name = "reverie"
version = "0.1.0"
edition = "2021"
publish = false

[dependencies]
agent-client-protocol = "*"
anyhow = "1"
chrono = "0.4"
futures = "0.3"
log = "0.4"
parking_lot = "0.12"
serde = { version = "1", features = ["derive"] }
serde_json = "1"
smol = "2"
uuid = { version = "1", features = ["v4"] }
