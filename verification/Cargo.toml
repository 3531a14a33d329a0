[package]
name = "plasma_adapter"
version = "0.1.0"
edition = "2021"
publish = false

[dependencies]
fixed = "*"
solana-program = "*"

[dev-dependencies]
borsh = "*"
