[package]
name = "solana_scoring"
version = "0.1.0"
edition = "2021"
publish = false

[dependencies]
url = "2"
clap = "2"
