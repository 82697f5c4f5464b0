[package]
name = "mpc_signer"
version = "0.1.0"
edition = "2021"
publish = false

[dependencies]
curve25519-dalek = "=3.2.0"
bs58 = "=0.5.1"
base64 = "=0.22.1"
rand = "=0.8.8"
sha2 = "=0.10.9"
solana-sdk = "=2.3.1"
spl-memo = "=6.0.0"

[dev-dependencies]
hex = "=0.4.3"
