[package]
name = "seven_up_seven_down"
version = "0.1.0"
edition = "2021"
publish = false

[dependencies]
cosmwasm-std = "*"
cw2 = "*"
cw-storage-plus = "*"
serde = { version = "*", features = ["derive"] }
