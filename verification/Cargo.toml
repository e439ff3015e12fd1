[package]
name = "yatzy"
version = "0.1.0"
edition = "2021"
publish = false

[dependencies]
serde = { version = "1", features = ["derive"] }
serde_json = "1"
thiserror = "2"
tokio = { version = "1", features = ["rt", "rt-multi-thread", "sync", "time", "fs", "io-util", "macros"] }
tracing = "0.1"
dirs = "*"
