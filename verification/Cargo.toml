[package]
name = "binance_ws"
version = "0.1.0"
edition = "2021"
publish = false

[dependencies]
url = "2"
tungstenite = "*"
serde = { version = "1", features = ["derive"] }
serde_json = "1"
