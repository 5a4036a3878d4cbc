[package]
name = "taocket"
version = "0.1.0"
edition = "2021"
publish = false

[dependencies]
crossbeam-channel = "0.5"
flume = "0.11"
futures-util = "0.3"
global-hotkey = "*"
log = "0.4"
mime_guess = "2"
open = "5"
parking_lot = "0.12"
rust-embed = "8"
serde = { version = "1", features = ["derive"] }
serde_json = "1"
tao = "*"
thiserror = "*"
tokio = { version = "1", features = ["rt-multi-thread", "net"] }
tokio-tungstenite = "*"
toml = "*"
wry = "*"
