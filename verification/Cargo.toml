[package]
name = "ttlmap"
version = "0.1.0"
edition = "2021"

[dependencies]
dashmap = "*"
tokio = { version = "*", features = ["rt", "rt-multi-thread", "time", "sync"] }
