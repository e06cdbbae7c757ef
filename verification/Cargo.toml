[package]
name = "liberty_reach"
version = "0.1.0"
edition = "2021"
publish = false

[dependencies]
chacha20poly1305 = "0.10"
scrypt = { version = "0.11", default-features = false }
zeroize = "1"
