[package]
name = "ucan_key_support"
version = "0.1.0"
edition = "2021"
publish = false

[dependencies]
bs58 = "*"
ed25519-zebra = "*"

[dev-dependencies]
rand = "0.8"
