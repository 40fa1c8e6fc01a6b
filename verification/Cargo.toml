[package]
name = "nft_registry"
version = "0.1.0"
edition = "2021"
publish = false

[dependencies]
solana-program = "1.18"
borsh = "1"
spl-token = { version = "4", features = ["no-entrypoint"] }
