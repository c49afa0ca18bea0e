[package]
name = "ticket_contract"
version = "0.1.0"
edition = "2021"
publish = false

[dependencies]
soroban-sdk = { version = "=28.0.0", features = ["testutils"] }
stellar-access = "=0.8.0"
stellar-tokens = "=0.8.0"
