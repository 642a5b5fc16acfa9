[package]
name = "ethcore"
version = "0.1.0"
edition = "2021"
publish = false

[dependencies]
libsecp256k1 = "0.7"
rand = "0.8"
sha3 = "0.10"
