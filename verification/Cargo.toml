[package]
name = "game"
version = "0.1.0"
edition = "2021"
publish = false

[dependencies]
tokio = { version = "1", features = ["sync", "time", "rt", "macros", "net"] }
futures = "0.3"
tokio-tungstenite = "*"
log = "0.4"
anyhow = "1"
