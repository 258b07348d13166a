[package]
name = "drift_ws"
version = "0.1.0"
edition = "2021"
publish = false

[dependencies]
rust_decimal = "=1.43.0"
serde = { version = "1", features = ["derive"] }
serde_json = "=1.0.154"
tokio = { version = "1", features = ["net", "sync", "rt", "macros"] }
tokio-tungstenite = "0.21"
futures-util = "0.3"
log = "0.4"
