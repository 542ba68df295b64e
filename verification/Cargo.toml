[package]
name = "ws_relay"
version = "0.1.0"
edition = "2021"
publish = false

[dependencies]
clap = { version = "3", features = ["derive"] }
futures-util = "0.3"
hyper = "0.14"
tokio = { version = "1", features = ["full"] }
tokio-tungstenite = "0.17"
tungstenite = "0.17"
warp = { version = "0.3", features = ["tls"] }
warp-reverse-proxy = "0.5"
