[package]
name = "danmaku"
version = "0.1.0"
edition = "2021"
publish = false

[dependencies]
anyhow = "*"
async-channel = "*"
log = "*"
serde = { version = "*", features = ["derive"] }
tokio = { version = "*", features = ["rt", "time", "io-util", "macros", "sync"] }
