[package]
name = "eventwork_websockets"
version = "0.1.0"
edition = "2021"
publish = false

[dependencies]
async-channel = "=2.5.0"
async-std = "=1.13.2"
async-tungstenite = { version = "=0.29.1", features = ["async-std-runtime"] }
futures-lite = "=2.6.1"
futures-util = "=0.3.34"
url = "=2.5.8"
ws_stream_tungstenite = "=0.15.0"

[dev-dependencies]
bincode = "=1.3.3"
