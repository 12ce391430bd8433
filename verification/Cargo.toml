[package]
name = "wasi_streams"
version = "0.1.0"
edition = "2021"
publish = false

[dependencies]
anyhow = "1"
async-trait = "0.1"
cap-std = "*"
tokio = { version = "1", features = ["io-util", "rt", "sync", "time"] }
