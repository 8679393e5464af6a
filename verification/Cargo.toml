[package]
name = "octopus"
version = "0.1.0"
edition = "2021"
publish = false

[dependencies]
async-trait = "0.1"
ethers-core = "1"
ethers-providers = { version = "1", default-features = false }
ethers-signers = "1"
thiserror = "1"
