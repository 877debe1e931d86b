[package]
name = "bls381g1_hash"
version = "0.1.0"
edition = "2021"
publish = false

[dependencies]
amcl = { version = "=0.2.0", default-features = false, features = ["bls381"] }
digest = "=0.10.7"
sha2 = "=0.10.9"
sha3 = "=0.10.9"
