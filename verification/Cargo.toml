[package]
name = "chain_id"
version = "0.1.0"
edition = "2021"
publish = false

[dependencies]
ethers-core = "=2.0.10"
alloy-primitives = "=1.7.3"
serde = { version = "=1.0.229", features = ["derive"] }
