[package]
name = "star-escrow"
version = "0.1.0"
edition = "2021"
publish = false

[dependencies]
anyhow = "1"
base64 = "0.22"
clap = { version = "4", features = ["derive", "env"] }
serde_json = "1"
soroban-sdk = "22"
