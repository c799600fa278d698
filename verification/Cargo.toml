[package]
name = "floodnet"
version = "0.1.0"
edition = "2021"
publish = false

[dependencies]
bincode = { version = "=2.0.1", features = ["serde"] }
crossbeam-channel = "=0.5.17"
serde = { version = "=1.0.229", features = ["derive"] }
