[package]
name = "hub_rs"
version = "0.1.0"
edition = "2021"
publish = false

[dependencies]
blake3 = "1"
chrono = "0.4"
ed25519-dalek = "2"
