[package]
name = "zigstake_event"
version = "0.1.0"
edition = "2021"
publish = false

[dependencies]
cosmwasm-std = "*"
cosmwasm-schema = "*"
cw-storage-plus = "*"
cw2 = "*"
thiserror = "*"
serde = { version = "1", features = ["derive"] }
