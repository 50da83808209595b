[package]
name = "nft_mint"
version = "0.1.0"
edition = "2021"
publish = false

[dependencies]
solana-sdk = ">=1.16, <2"
spl-token = { version = ">=3.2, <5", features = ["no-entrypoint"] }
spl-token-metadata = "=0.0.1"
