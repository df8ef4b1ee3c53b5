[package]
name = "combined_transport"
version = "0.1.0"
edition = "2021"
publish = false

[dependencies]
anyhow = "1"
futures = "0.3"
libp2p = { version = "0.39", default-features = false, features = ["tcp-tokio", "websocket", "noise", "mplex", "ping"] }
parking_lot = "0.11"
tokio = { version = "1", features = ["macros", "net", "rt-multi-thread", "sync"] }
