[package]
name = "dead_drop"
version = "0.1.0"
edition = "2021"
publish = false

[dependencies]
anyhow = "=1.0.104"
hex = "=0.4.3"
risc0-zkvm = { version = "=3.0.6", default-features = false, features = ["client"] }
sha2 = "=0.10.9"
soroban-sdk = { version = "=25.3.2", features = ["hazmat-address"] }
