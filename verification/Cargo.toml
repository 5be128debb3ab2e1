[package]
name = "nova_psm_amm"
version = "0.1.0"
edition = "2021"
publish = false

[dependencies]
anyhow = "=1.0.104"
jupiter-amm-interface = "=0.4.7"
rust_decimal = "=1.43.0"
solana-sdk = { version = "=2.0.25", default-features = false }
spl-token = { version = "=6.0.0", default-features = false }
