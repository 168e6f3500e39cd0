[package]
name = "pension_chain"
version = "0.1.0"
edition = "2021"
publish = false

[dependencies]
anchor-lang = { version = "=1.2.2", features = ["init-if-needed"] }
anchor-spl = { version = "=1.2.2", default-features = false, features = ["token", "associated_token", "solana-v3"] }
