[package]
name = "pwnforge"
version = "0.1.0"
edition = "2021"
publish = false

[dependencies]
sha2 = "=0.10.9"
sha1 = "=0.10.7"
hex = "=0.4.3"
base64 = "=0.22.1"
argon2 = { version = "=0.5.3", features = ["std"] }
validator = "=0.20.0"
uuid = { version = "=1.29.1", features = ["v7"] }
regex = "=1.13.1"
axum = "=0.8.9"
tokio = { version = "=1.54.1", features = ["full"] }
redis = { version = "=1.8.1", features = ["tokio-comp", "connection-manager"] }
reqwest = { version = "=0.12.28", default-features = false, features = ["rustls-tls", "json"] }
serde = { version = "=1.0.229", features = ["derive"] }
serde_json = "=1.0.154"
anyhow = "=1.0.104"
dotenvy = "=0.15.7"
chrono = "=0.4.45"
