[package]
name = "pricelocker"
version = "0.1.0"
edition = "2021"
publish = false

[dependencies]
anchor-lang = "0.29"
anchor-spl = "0.29"
pyth-sdk = "0.8"
pyth-sdk-solana = "0.10"
