[package]
name = "storage_mining"
version = "0.1.0"
edition = "2021"
publish = false

[dependencies]
solana-program = "=5.1.0"
pinocchio = { version = "=0.11.2", features = ["cpi"] }
pinocchio-token = "=0.7.0"

[dev-dependencies]
borsh = "=1.8.1"
