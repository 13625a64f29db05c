[package]
name = "twoside"
version = "0.1.0"
edition = "2021"
publish = false

[dependencies]
mpl-token-metadata = "=5.1.1"
solana-program = "=2.3.0"
