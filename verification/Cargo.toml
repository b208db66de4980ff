[package]
name = "counter_contract"
version = "0.1.0"
edition = "2021"
publish = false

[dependencies]
nibiru-std = "=0.10.0"
cosmwasm-std = "=1.5.11"
serde = { version = "*", features = ["derive"] }
