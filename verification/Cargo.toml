[package]
name = "keypair_service"
version = "0.1.0"
edition = "2021"
publish = false

[dependencies]
bs58 = "*"
dotenv = "*"
solana-sdk = "2"
