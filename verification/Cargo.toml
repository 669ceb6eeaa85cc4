[package]
name = "sysvar_cache"
version = "0.1.0"
edition = "2021"
publish = false

[dependencies]
bincode = "1"
solana-sdk = "2"
