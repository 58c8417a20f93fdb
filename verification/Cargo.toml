[package]
name = "notary"
version = "0.1.0"
edition = "2021"
publish = false

[dependencies]
lmdb = "0.8"
axum = "*"
tokio = { version = "*", features = ["full"] }
nostr-sdk = "*"
serde = { version = "*", features = ["derive"] }
serde_json = "*"

[dev-dependencies]
tempfile = "*"
