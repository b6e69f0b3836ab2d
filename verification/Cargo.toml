[package]
name = "monotree_hasher"
version = "0.1.0"
edition = "2021"
publish = false

[dependencies]
poseidon-rs = "*"
ff_ce = "0.11"
blake2-rfc = "0.2"
blake3 = "*"
sha2 = "*"
sha3 = "*"
digest = "*"
