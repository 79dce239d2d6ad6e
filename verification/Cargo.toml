[package]
name = "csm"
version = "0.1.0"
edition = "2021"
publish = false

[dependencies]
cosmwasm-std = "2.1"
cosmwasm-schema = "2.1"
cw-storage-plus = "2.0"
cw2 = "2.0"
cw20 = "2.0"
serde = { version = "1", default-features = false, features = ["derive"] }
schemars = "0.8"
thiserror = "1"
