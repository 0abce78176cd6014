[package]
name = "bore"
version = "0.1.0"
edition = "2021"
publish = false

[dependencies]
anyhow = "1"
dashmap = "*"
fastrand = "*"
tokio = { version = "1", features = ["net", "time", "rt-multi-thread", "io-util", "sync", "macros"] }
tracing = "*"
uuid = { version = "1", features = ["v4"] }
