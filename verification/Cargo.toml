[package]
name = "validator_keygen"
version = "0.1.0"
edition = "2021"
publish = false

[dependencies]
clap = { version = "*", features = ["derive"] }
hex = "*"
rand = "*"
serde_json = "*"
