[package]
name = "nft_kitties"
version = "0.1.0"
edition = "2021"
publish = false

[dependencies]
ink_env = "3"
parity-scale-codec = "3"
