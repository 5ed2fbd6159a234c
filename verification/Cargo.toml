[package]
name = "cpace"
version = "0.1.0"
edition = "2021"
publish = false

[dependencies]
curve25519-dalek = "4"
getrandom = "0.2"
hmac-sha512 = "1"
