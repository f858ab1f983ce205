[package]
name = "referrals_core"
version = "0.1.0"
edition = "2021"
publish = false

[dependencies]
archway-bindings = "=0.2.1"
cosmwasm-schema = "=1.5.11"
cosmwasm-std = { version = "=1.5.11", features = ["staking"] }
cw-utils = "=1.0.3"
serde = { version = "=1.0.229", features = ["derive"] }
serde-cw-value = "=0.7.0"
thiserror = "=1.0.69"
