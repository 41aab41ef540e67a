[package]
name = "xlm_ns"
version = "0.1.0"
edition = "2021"
publish = false

[dependencies]
stellar-strkey = "=1.0.0"
ed25519-dalek = "=2.2.0"
serde = { version = "=1.0.229", features = ["derive"] }
serde_json = "=1.0.154"
toml = "1.1.8"
clap = { version = "=4.6.7", features = ["derive"] }
tokio = { version = "=1.54.1", features = ["full"] }
reqwest = { version = "=0.13.5", default-features = false, features = ["json"] }
anyhow = "=1.0.104"
chrono = "=0.4.45"
stellar-xdr = "=30.0.0"
stellar-rpc-client = "=30.0.0"
