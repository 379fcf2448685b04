[package]
name = "pda_counter"
version = "0.1.0"
edition = "2021"
publish = false

[dependencies]
solana-program = "1"

[dev-dependencies]
borsh = "1"
