[package]
name = "deribit_ws"
version = "0.1.0"
edition = "2021"
publish = false

[dependencies]
serde_json = "*"
tokio = { version = "*", features = ["rt-multi-thread", "macros", "net"] }
tokio-tungstenite = "*"
futures = "*"
dotenv = "*"
