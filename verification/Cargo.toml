[package]
name = "generic_array"
version = "0.1.0"
edition = "2021"
publish = false

[dependencies]
faster-hex = "*"
serde = "*"
zeroize = "*"
subtle = "*"
arbitrary = "*"
