[package]
name = "safe_core"
version = "0.1.0"
edition = "2021"
publish = false

[dependencies]
lru-cache = "*"
sha2 = "*"
crypto_secretbox = "*"
ed25519-dalek = "*"
getrandom = "*"
futures = "*"
maidsafe_utilities = "*"
routing = "*"
