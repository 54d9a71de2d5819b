[package]
name = "mantis_raydium_client"
version = "0.1.0"
edition = "2021"
publish = false

[dependencies]
solana-sdk = "=1.18.26"
solana-program = "=1.18.26"
spl-token = "4"
spl-associated-token-account = "2.3"
reqwest = { version = "=0.11.27", default-features = false }
tokio = { version = "1", features = ["rt-multi-thread"] }
serde = { version = "1", features = ["derive"] }
serde_json = "1"
toml = "0.8"
rust_decimal = "1"
bincode = "1"
base64 = "0.21"
