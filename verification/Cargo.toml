[package]
name = "workspace_engine"
version = "0.1.0"
edition = "2021"
publish = false

[dependencies]
chrono = "=0.4.45"
serde_json = "=1.0.151"
url = "=2.5.8"
uuid = { version = "=1.27.0", features = ["v4"] }
