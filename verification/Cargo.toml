[package]
name = "platform_tui"
version = "0.1.0"
edition = "2021"
publish = false

[dependencies]
secp256k1 = "*"
sha2 = "*"
ripemd = "*"
murmur3 = "*"
bs58 = "*"
hex = "=0.4.3"
rand = "=0.8.8"
bincode = "=2.0.1"
