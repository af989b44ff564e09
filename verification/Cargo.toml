[package]
name = "xpub_hasher"
version = "0.1.0"
edition = "2021"
publish = false

[dependencies]
bitcoin = "*"
hex = "*"
sha2 = "*"
