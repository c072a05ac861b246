[package]
name = "keystretch"
version = "0.1.0"
edition = "2021"
publish = false

[dependencies]
argon2 = "*"
bip39 = "*"
bitcoin = "*"
sha3 = "*"

[dev-dependencies]
bs58 = "*"
