[package]
name = "erc20-vault"
version = "0.1.0"
edition = "2021"
publish = false

[dependencies]
alloy-primitives = { version = "1", default-features = false }
alloy-sol-types = { version = "1", default-features = false }
borsh = "1"
frame-support = "38"
frame-system = "38"
parity-scale-codec = { version = "3", features = ["derive", "max-encoded-len"] }
scale-info = { version = "2", features = ["derive"] }
serde_json = "1"
sp-core = "34"
sp-io = "38"
sp-runtime = "39"

[dev-dependencies]
secp256k1 = { version = "0.28", features = ["recovery"] }
