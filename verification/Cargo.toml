[package]
name = "scout_core"
version = "0.1.0"
edition = "2021"
publish = false

[dependencies]
rand = "=0.10.3"
base64 = "=0.23.1"
serde = { version = "=1.0.229", features = ["derive"] }
serde_json = "=1.0.151"
uuid = { version = "=1.27.0", features = ["v4"] }
dirs = "=7.0.0"
log = "=0.4.34"
hound = "=3.5.1"
tokio = { version = "=1.53.2", features = ["rt-multi-thread", "sync", "time", "process", "macros"] }
reqwest = { version = "=0.12.28", default-features = false, features = ["json", "rustls-tls"] }
futures-util = "=0.3.34"
tokio-tungstenite = "*"
