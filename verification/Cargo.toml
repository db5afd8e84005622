[package]
name = "sol_bridge"
version = "0.1.0"
edition = "2021"
publish = false

[dependencies]
solana-program = "=5.1.0"
solana-pubkey = { version = "=4.4.0", features = ["sha2"] }
