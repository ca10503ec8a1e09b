[package]
name = "nft_staking"
version = "0.1.0"
edition = "2021"
publish = false

[dependencies]
solana-program = "=3.0.0"
solana-system-interface = { version = "*", features = ["bincode"] }
spl-token = "=9.0.0"
