[package]
name = "simple_vote"
version = "0.1.0"
edition = "2021"
publish = false

[dependencies]
radix-common = "=1.4.0"
scrypto = "=1.4.0"
