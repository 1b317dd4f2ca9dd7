[package]
name = "token_withdraw"
version = "0.1.0"
edition = "2021"
publish = false

[dependencies]
anchor-lang = { version = "=1.2.0", features = ["init-if-needed"] }
anchor-spl = "=1.2.0"
solana-pubkey = { version = "=3.0.0", features = ["curve25519"] }
