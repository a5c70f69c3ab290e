[package]
name = "sender_staking"
version = "0.1.0"
edition = "2021"
publish = false

[dependencies]
near-sdk = { version = "=5.29.1", features = ["non-contract-usage"] }
near-contract-standards = "=5.29.1"
near-gas = "=0.3.7"
near-sys = "=0.2.14"
serde_json = "=1.0.151"
