[package]
name = "webrtc_signaling"
version = "0.1.0"
edition = "2021"
publish = false

[dependencies]
anyhow = "=1.0.104"
futures-util = "=0.3.34"
glib = "=0.19.9"
gstreamer = "=0.22.8"
gstreamer-sdp = "=0.22.6"
gstreamer-webrtc = "=0.22.6"
serde_json = { version = "=1.0.154", features = ["preserve_order"] }
tokio = { version = "=1.54.1", features = ["macros", "net", "rt-multi-thread", "sync"] }
tokio-tungstenite = "=0.21.0"
tungstenite = "=0.21.0"
url = "=2.5.8"
