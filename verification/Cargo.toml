[package]
name = "margined_power"
version = "0.1.0"
edition = "2021"
publish = false

[dependencies]
cosmwasm-std = "=1.5.11"
cosmwasm-schema = "=1.5.11"
cw-utils = "=1.0.3"
cw-storage-plus = "=1.2.0"
cw2 = "=1.1.2"
cw-controllers = "=1.1.2"
injective-math = "=0.1.23"
num = "=0.4.3"
osmosis-std = "=0.21.0"
serde = { version = "=1.0.229", default-features = false, features = ["derive"] }
