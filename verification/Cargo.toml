[package]
name = "reception"
version = "0.1.0"
edition = "2021"
publish = false

[dependencies]
tokio = { version = "1", features = ["sync", "time", "net", "macros", "rt", "rt-multi-thread"] }
tokio-tungstenite = "0.20"
futures = "0.3"
futures-util = "0.3"
cancellable = "*"
fastrand = "2"
serde = { version = "1", features = ["derive"] }
humantime-serde = "1"
thiserror = "1"
log = "0.4"
async-trait = "0.1"
tokio-util = "0.7"
