[package]
name = "wallet_operations"
version = "0.1.0"
edition = "2021"
publish = false

[dependencies]
cosmwasm-schema = "1"
cosmwasm-std = { version = "1", features = ["stargate", "staking"] }
cosmwasm-storage = "1"
cw-storage-plus = "1"
cw20 = "1"
prost = "0.11"
prost-types = "0.11"
