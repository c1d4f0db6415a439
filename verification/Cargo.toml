[package]
name = "icepipe"
version = "0.1.0"
edition = "2021"
publish = false

[dependencies]
base64 = "=0.23.1"
bytes = "=1.12.1"
clap = { version = "=4.6.7", features = ["derive"] }
curve25519-dalek = "=5.0.0"
env_logger = "=0.11.11"
futures = "=0.3.34"
futures-util = "=0.3.34"
log = "=0.4.34"
ring = "=0.17.14"
thiserror = "=2.0.21"
tokio = { version = "=1.53.2", features = ["fs", "io-std", "io-util", "macros", "net", "rt-multi-thread", "sync", "time"] }
tokio-tungstenite = "=0.30.0"
url = "=2.5.8"
webrtc-ice = "=0.17.2"
webrtc-sctp = "=0.17.2"
webrtc-util = "=0.17.2"
x25519-dalek = { version = "=3.0.0", features = ["static_secrets"] }
