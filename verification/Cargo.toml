[package]
name = "eg4_bridge"
version = "0.1.0"
edition = "2021"
publish = false

[dependencies]
url = "2"
serde = { version = "1", features = ["derive"] }
serde_json = "1"
serde_yaml = "0.9"
serde_with = "3"
anyhow = "1"
tokio = { version = "1", features = ["sync", "rt", "macros", "time"] }
futures = "0.3"
oneshot = "0.1"
chrono = "0.4"
