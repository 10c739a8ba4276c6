[package]
name = "weak_sha3"
version = "0.1.0"
edition = "2021"
publish = false

[dependencies]
digest = "0.10"
sha3 = "0.10"
