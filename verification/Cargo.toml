[package]
name = "cam_control"
version = "0.1.0"
edition = "2021"
publish = false

[dependencies]
anyhow = "=1.0.104"
env_logger = "=0.10.2"
futures-util = "=0.3.34"
gstreamer = "=0.23.7"
gstreamer-rtsp-server = "=0.23.5"
log = "=0.4.35"
rppal = "=0.22.1"
serde = { version = "=1.0.229", features = ["derive"] }
serde_json = "=1.0.154"
tokio = { version = "=1.54.1", features = ["macros", "rt-multi-thread", "net", "sync", "time"] }
tokio-tungstenite = "=0.21.0"
