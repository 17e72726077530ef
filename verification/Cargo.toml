[package]
name = "rustplus"
version = "0.1.0"
edition = "2021"
publish = false

[dependencies]
serde_json = "1"
prost = "0.13"
tokio = { version = "1", features = ["full"] }
tokio-tungstenite = { version = "*", features = ["rustls-tls-webpki-roots"] }
futures-util = { version = "0.3", features = ["sink"] }
http = "1"
reqwest = { version = "0.12", default-features = false, features = ["json", "rustls-tls"] }
thiserror = "2"
tracing = "0.1"
