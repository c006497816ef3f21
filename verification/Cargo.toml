[package]
name = "dd_blind_box"
version = "0.1.0"
edition = "2021"
publish = false

[dependencies]
sha2 = "0.10"
hex = "0.4"
serde = { version = "1", features = ["derive"] }
cosmwasm-std = "1"
cw-storage-plus = "1"
cw2 = "1"
