[package]
name = "phoenix_blend_pool"
version = "0.1.0"
edition = "2021"
publish = false

[dependencies]
soroban-sdk = "=26.1.1"
stellar-strkey = "=0.0.16"
stellar-xdr = { version = "=26.0.1", features = ["base64"] }
warpdrive-shared = "=0.2.7"

[dev-dependencies]
anyhow = "1"
