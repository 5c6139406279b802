[package]
name = "create_account_core"
version = "0.1.0"
edition = "2021"
publish = false

[dependencies]
solana-program = "2"
solana-sdk-ids = "2"
solana-system-interface = { version = "1", features = ["bincode"] }
pinocchio = "*"
