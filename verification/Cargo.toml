[package]
name = "amm_sdk"
version = "0.1.0"
edition = "2021"
publish = false

[dependencies]
ethers-core = "2"
ethers-contract = "2"
ethers-providers = "2"
