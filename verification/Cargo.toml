[package]
name = "wallet"
version = "0.1.0"
edition = "2021"
publish = false

[dependencies]
bincode = "1.0"
bs58 = "0.2"
clap = "2.31"
env_logger = "0.5"
serde_json = "1.0"
