[package]
name = "did_commitment"
version = "0.1.0"
edition = "2021"
publish = false

[dependencies]
sha3 = "*"
ed25519-dalek = "*"
borsh = { version = "*", features = ["derive"] }
solana-program = "*"
