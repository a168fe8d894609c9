[package]
name = "overseer_core"
version = "0.1.0"
edition = "2021"
publish = false

[dependencies]
base64 = "*"
serde = { version = "*", features = ["derive"] }
serde_json = "*"
tokio = { version = "*", features = ["rt-multi-thread", "macros", "time", "net", "sync"] }
tokio-tungstenite = { version = "*", features = ["rustls-tls-webpki-roots"] }
futures-util = "*"
reqwest = { version = "*", default-features = false, features = ["json", "rustls-tls"] }
rustls = "*"
dirs = "*"
