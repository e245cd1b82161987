[package]
name = "substrate_kitties"
version = "0.1.0"
edition = "2021"
publish = false

[dependencies]
parity-scale-codec = { version = "=1.3.7", features = ["derive"] }
sp-core = "=2.0.1"
sp-io = "=2.0.1"
sp-std = "=2.0.1"
sp-runtime = "=2.0.1"
serde_json = "=1.0.154"
frame-support = "=2.0.1"
frame-system = "=2.0.1"
pallet-balances = "=2.0.1"
pallet-randomness-collective-flip = "=2.0.1"
syn = "=1.0.58"
substrate-bip39 = "=0.4.2"
