[package]
name = "bellovin_merritt"
version = "0.1.0"
edition = "2021"
publish = false

[dependencies]
aes-gcm-siv = "=0.12.1"
argon2 = "=0.6.0"
bincode = "=1.3.3"
rand = "=0.8.8"
rsa = { version = "=0.9.10", features = ["serde"] }
sha3 = "0.10"
