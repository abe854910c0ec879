[package]
name = "cw_pets"
version = "0.1.0"
edition = "2021"
publish = false

[dependencies]
semver = "1"
cosmwasm-std = "1"
cw2 = "1"
cw-storage-plus = "1"
serde = { version = "1", features = ["derive"] }
