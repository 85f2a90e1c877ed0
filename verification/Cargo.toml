[package]
name = "settlement_reconciler"
version = "0.1.0"
edition = "2021"
publish = false

[dependencies]
bitcoin = "*"
bitcoincore-rpc = "*"
serde = { version = "*", features = ["derive"] }
serde_json = "*"
