[package]
name = "ceremony"
version = "0.1.0"
edition = "2021"
publish = false

[dependencies]
hex = "0.4"
sha2 = "0.10"
clap = { version = "4", features = ["derive"] }
bip39 = "2"
