[package]
name = "bifrost"
version = "0.1.0"
edition = "2021"
publish = false

[dependencies]
chrono = "=0.4.45"
log = "=0.4.34"
mac_address = "=1.2.0"
mdns-sd = "=0.21.5"
serde = { version = "=1.0.229", features = ["derive"] }
serde_json = "=1.0.151"
uuid = { version = "=1.27.0", features = ["serde"] }
