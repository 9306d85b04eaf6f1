[package]
name = "udpopt"
version = "0.1.0"
edition = "2021"
publish = false

[dependencies]
thiserror = "1"
tokio = { version = "1", features = ["net", "sync", "time", "rt", "rt-multi-thread", "fs", "io-util", "macros"] }
