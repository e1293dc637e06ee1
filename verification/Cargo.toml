[package]
name = "dlc_signer"
version = "0.1.0"
edition = "2021"
publish = false

[dependencies]
dlccryptlib = "=0.3.2"
bip39 = "=2.2.2"
axum = "=0.7.9"
serde = { version = "=1.0.229", features = ["derive"] }
tokio = { version = "=1.54.1", features = ["full"] }

[dev-dependencies]
secp256k1 = "=0.29.1"
