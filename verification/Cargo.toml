[package]
name = "sango"
version = "0.1.0"
edition = "2021"
publish = false

[dependencies]
anyhow = "1"
cfspeedtest = "*"
chrono = "0.4"
env_logger = "0.11"
futures = "0.3"
log = "0.4"
rand = "0.9"
regex = "1"
reqwest = { version = "0.12", default-features = false, features = ["json", "blocking", "rustls-tls"] }
rustls = { version = "0.23", default-features = false, features = ["ring", "std", "logging", "tls12"] }
serde = { version = "1", features = ["derive"] }
serde_json = "1"
tokio = { version = "1", features = ["full"] }
tokio-tungstenite = { version = "*", features = ["rustls-tls-webpki-roots"] }
toml = "*"
