[package]
name = "vrf_rarity"
version = "0.1.0"
edition = "2021"
publish = false

[dependencies]
anchor-lang = "*"
ephemeral-vrf-sdk = { version = "*", features = ["anchor"] }
