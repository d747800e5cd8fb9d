[package]
name = "liquidproof"
version = "0.1.0"
edition = "2021"
publish = false

[dependencies]
cosmwasm-std = "1.0.0"
cw0 = "0.10"
cw2 = "0.10"
cw20 = "0.10"
cw-controllers = "0.10"
cw-storage-plus = "0.10"
schemars = "0.8"
serde = { version = "1.0", default-features = false, features = ["derive"] }
