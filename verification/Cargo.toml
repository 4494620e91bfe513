[package]
name = "stream_flow_demo"
version = "0.1.0"
edition = "2021"
publish = false

[dependencies]
anchor-lang = { version = "=0.32.2", features = ["init-if-needed"] }
anchor-spl = "=0.32.2"
streamflow-sdk = { version = "=0.15.0", features = ["cpi"] }
solana-pubkey = { version = "=2.4.0", features = ["curve25519"] }
