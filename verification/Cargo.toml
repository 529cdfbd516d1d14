[package]
name = "peer_watcher"
version = "0.1.0"
edition = "2021"
publish = false

[dependencies]
ipc-channel = "=0.18.3"

[dev-dependencies]
bincode = "=1.3.3"
