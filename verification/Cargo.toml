[package]
name = "mb_solana"
version = "0.1.0"
edition = "2021"
publish = false

[dependencies]
tiny-bip39 = "*"
solana-sdk = "1.18"
serde_json = "1"
clap = { version = "3", features = ["derive"] }
clap_complete = "3"
colored_json = "*"
rpassword = "7"
