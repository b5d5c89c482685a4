[package]
name = "dns01"
version = "0.1.0"
edition = "2021"
publish = false

[dependencies]
anyhow = "1"
clap = { version = "4", features = ["derive"] }
hickory-client = { version = "0.24", features = ["dnssec-ring"] }
hickory-proto = { version = "0.24", features = ["dnssec-ring"] }
serde = { version = "1", features = ["derive"] }
serde_with = { version = "3", features = ["base64"] }
toml = "0.8"
tracing = "0.1"
tracing-subscriber = { version = "0.3", features = ["env-filter"] }
