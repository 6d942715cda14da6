[package]
name = "raydium_amm_monitor"
version = "0.1.0"
edition = "2021"
publish = false

[dependencies]
solana-sdk = "2.2"
solana-program = "2.2"
spl-token = "7"
spl-associated-token-account = "6"
bs58 = "0.5"
base64 = "0.22"
bincode = "1.3"
regex = "1"
rand = "0.8"
chrono = "0.4"
serde = { version = "1", features = ["derive"] }
serde_json = "1"
tokio = { version = "1", features = ["full"] }
anyhow = "1"
thiserror = "1"
jsonwebtoken = "9"
once_cell = "1"
dotenv = "0.15"
