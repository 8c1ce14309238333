[package]
name = "vault_strategies"
version = "0.1.0"
edition = "2021"
publish = false

[dependencies]
defindex-strategy-core = "=0.3.0"
soroban-fixed-point-math = "=1.5.0"
soroban-sdk = { version = "=25.3.2", features = ["alloc", "hazmat-address"] }
