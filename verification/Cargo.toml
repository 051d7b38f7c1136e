[package]
name = "voice_call_core"
version = "0.1.0"
edition = "2021"
publish = false

[dependencies]
anyhow = "=1.0.104"
cpal = "=0.13.5"
futures-util = "=0.3.34"
ringbuf = "=0.2.8"
serde = { version = "=1.0.229", features = ["derive"] }
serde_json = "=1.0.151"
tokio = { version = "=1.53.2", features = ["rt-multi-thread", "macros", "sync"] }
tokio-tungstenite = "=0.30.0"
url = "=2.5.8"
webrtc = "=0.14.0"
