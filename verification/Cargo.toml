[package]
name = "signatory_sgx"
version = "0.1.0"
edition = "2021"
publish = false

[dependencies]
ed25519-dalek = { version = "2", features = ["rand_core"] }
rand = "0.8"
ring = "0.17"
sgx-isa = "0.4"
