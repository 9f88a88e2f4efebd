[package]
name = "serum_market_deploy"
version = "0.1.0"
edition = "2021"
publish = false

[dependencies]
serum_dex = "*"
solana-program = "1"
anchor-lang = "0.29"
anchor-spl = { version = "0.29", default-features = false, features = ["token"] }
spl-token = "4"
