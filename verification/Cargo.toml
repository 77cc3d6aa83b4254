[package]
name = "loftbot"
version = "0.1.0"
edition = "2021"
publish = false

[dependencies]
failure = "0.1.8"
futures = "0.1.31"
reqwest = "0.9.24"
serde = { version = "1", features = ["derive"] }
serde_derive = "1"
serde_json = "1"
tokio = "0.1"
websocket = "0.26.5"
