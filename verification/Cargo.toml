[package]
name = "exchange_connectors"
version = "0.1.0"
edition = "2021"
publish = false

[dependencies]
async-trait = "0.1"
binance = "0.21"
futures = "0.3"
reqwest = { version = "0.11", features = ["json"] }
serde = { version = "1", features = ["derive"] }
serde_json = "1"
thiserror = "1"
tokio = { version = "1", features = ["rt-multi-thread", "macros", "sync", "net", "time"] }
tokio-tungstenite = "0.21"
