[package]
name = "neohub"
version = "0.1.0"
edition = "2021"
publish = false

[dependencies]
anyhow = "1"
futures-util = "0.3"
log = "0.4"
rustls = { version = "0.21", features = ["dangerous_configuration"] }
serde = { version = "1", features = ["derive"] }
serde_json = "1"
tokio = { version = "1", features = ["net", "time", "rt", "macros"] }
tokio-tungstenite = { version = "0.19", features = ["rustls-tls-webpki-roots"] }
