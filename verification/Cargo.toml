[package]
name = "kp"
version = "0.1.0"
edition = "2021"
publish = false

[dependencies]
rand_chacha = { version = "=0.2.2", default-features = false }
serde = { version = "=1.0.229", features = ["derive"] }
parity-scale-codec = { version = "=1.3.7", features = ["derive"] }
jsonrpc-core = "=15.1.0"
jsonrpc-derive = "=15.1.0"
sp-core = "=2.0.1"
substrate-bip39 = "=0.4.2"
