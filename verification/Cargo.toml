[package]
name = "soroban_auth"
version = "0.1.0"
edition = "2021"
publish = false

[dependencies]
soroban-env-host = { version = "=29.0.0", features = ["testutils"] }
stellar-strkey = "=0.0.18"
rand = "*"

[dev-dependencies]
ed25519-dalek = "=3.0.0"
