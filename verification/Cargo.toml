[package]
name = "rocust_lib"
version = "0.1.0"
edition = "2021"
publish = false

[dependencies]
rand = "0.8"
serde = { version = "1", features = ["derive"] }
serde_json = "1"
tokio = { version = "1", features = ["rt-multi-thread", "macros", "time", "io-std", "io-util", "sync", "net"] }
tokio-util = "0.7"
tokio-tungstenite = "*"
futures-util = "0.3"
futures-channel = "0.3"
parking_lot = "0.12"
reqwest = { version = "0.11", default-features = false }
url = "2"
