[package]
name = "coproc"
version = "0.1.0"
edition = "2021"
publish = false

[dependencies]
anyhow = "1"
arc-swap = "1"
colored = "*"
rmp-serde = "1"
serde = { version = "1", features = ["derive"] }
serde_json = "1"
tungstenite = "*"
