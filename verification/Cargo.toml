[package]
name = "solana_http_server"
version = "0.1.0"
edition = "2021"
publish = false

[dependencies]
base64 = "0.21"
bs58 = "0.4"
ed25519-dalek = "1.0"
rand = "0.7"
serde = { version = "1", features = ["derive"] }
serde_json = "1"
solana-sdk = "1.18"
spl-associated-token-account = "2.3"
spl-token = "4.0"
tokio = { version = "1", features = ["full"] }
warp = "0.3"
