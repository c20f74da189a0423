[package]
name = "cryo_freeze"
version = "0.1.0"
edition = "2021"
publish = false

[dependencies]
async-trait = "0.1"
ethers = { version = "2.0", default-features = false }
ethers-core = "2.0"
polars = { version = "*", default-features = false }
prefix-hex = "0.7"
