[package]
name = "kv_store_contract"
version = "0.1.0"
edition = "2021"
publish = false

[dependencies]
cosmwasm-schema = "1.5"
cosmwasm-std = "1.5"
cw-storage-plus = "1.2"
thiserror = "1"

[dev-dependencies]
cw-multi-test = "0.20"
