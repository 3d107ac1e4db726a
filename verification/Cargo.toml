[package]
name = "solkit"
version = "0.1.0"
edition = "2021"
publish = false

[dependencies]
actix-web = "4"
base64 = "*"
bs58 = "*"
serde = { version = "1", features = ["derive"] }
solana-sdk = "*"
spl-token = "*"
