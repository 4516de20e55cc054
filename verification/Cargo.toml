[package]
name = "token_acl"
version = "0.1.0"
edition = "2021"
publish = false

[dependencies]
pinocchio = "*"
solana-curve25519 = "*"
