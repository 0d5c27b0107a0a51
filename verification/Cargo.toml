[package]
name = "ecdysis"
version = "0.1.0"
edition = "2021"
publish = false

[dependencies]
bincode = "1"
bytes = "1"
derive_more = { version = "1", features = ["display", "from"] }
futures = "0.3"
log = "0.4"
os_pipe = "1"
parking_lot = "0.12"
serde = { version = "1", features = ["derive"] }
socket2 = { version = "0.5", features = ["all"] }
tokio = { version = "1", features = ["full"] }
tokio-seqpacket = "*"
tokio-stream = { version = "0.1", features = ["net", "signal"] }
tokio-util = { version = "0.7", features = ["codec", "net"] }
