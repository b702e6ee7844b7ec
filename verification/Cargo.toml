[package]
name = "signaling"
version = "0.1.0"
edition = "2021"
publish = false

[dependencies]
anyhow = "=1.0.104"
futures-util = { version = "=0.3.34", features = ["sink"] }
rheomesh = "=0.5.2"
serde = { version = "=1.0.229", features = ["derive"] }
serde_json = "=1.0.154"
tokio = { version = "=1.54.1", features = ["full"] }
tokio-tungstenite = "=0.30.0"
tracing = "=0.1.44"
uuid = { version = "=1.29.0", features = ["v4"] }
webrtc = "=0.13.0"
