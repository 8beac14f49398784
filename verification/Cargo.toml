[package]
name = "openhome"
version = "2.0.3"
edition = "2021"
publish = false

[dependencies]
anyhow = "1"
log = "0.4"
openaction = "*"
percent-encoding = "2"
reqwest = { version = "0.12", default-features = false, features = ["json", "rustls-tls"] }
serde = { version = "1", features = ["derive"] }
serde_json = "1"
simplelog = "0.12"
tokio = { version = "1", features = ["full"] }
