[package]
name = "kdbx_errors"
version = "0.1.0"
edition = "2021"
publish = false

[dependencies]
rust-argon2 = "0.8"
base64 = "0.12"
block-modes = "0.5"
hmac = "0.8"
stream-cipher = "0.4"
xml-rs = "0.8"
