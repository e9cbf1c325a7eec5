[package]
name = "multi_hop_lock"
version = "0.1.0"
edition = "2021"
publish = false

[dependencies]
curv-kzen = "=0.10.0"
kzen-paillier = "=0.4.3"
sha2 = "=0.9.9"
sha3 = "=0.9.1"
