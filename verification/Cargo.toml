[package]
name = "grin_cli"
version = "0.1.0"
edition = "2021"
publish = false

[dependencies]
ring = "0.17"
secp256k1 = "0.28"
rust-crypto = "0.2"
tiny-keccak = "1.5"
bs58 = { version = "0.5", features = ["check"] }
hex = "0.4"
rand = "0.8"
tiny-bip39 = "1"
num-bigint = "0.4"
serde = { version = "1", features = ["derive"] }
serde_json = "1"
anyhow = "1"
eyre = "0.6"
tokio = { version = "1", features = ["full"] }
console = "0.15"
dialoguer = "0.11"
indicatif = "0.17"
async-recursion = "1"
ethers = { version = "2", default-features = false, features = ["ws"] }
k256 = "0.13"
