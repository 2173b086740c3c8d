[package]
name = "bridge"
version = "0.1.0"
edition = "2021"
publish = false

[dependencies]
sha2 = "*"
sha3 = "*"
libsecp256k1 = "*"
