[package]
name = "namada_airdrop"
version = "0.1.0"
edition = "2021"
publish = false

[dependencies]
hex = "=0.4.3"
bellman = { version = "=0.14.0", default-features = false, features = ["groth16"] }
bls12_381 = "=0.8.0"
borsh = { version = "1", features = ["derive"] }
serde = { version = "=1.0.229", features = ["derive"] }
serde_json = "=1.0.154"
serde_with = { version = "=3.24.0", features = ["hex"] }
thiserror = "=1.0.69"
