[package]
name = "cw_deeplinks"
version = "0.1.0"
edition = "2021"
publish = false

[dependencies]
cosmwasm-std = "1.5"
cw-storage-plus = "1.2"
serde = { version = "1", features = ["derive"] }
