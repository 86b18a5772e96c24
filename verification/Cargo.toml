[package]
name = "transaction_logger"
version = "0.1.0"
edition = "2021"
publish = false

[dependencies]
ic-ethereum-types = "*"
candid = "*"
ic-cdk = "*"
ic-stable-structures = "*"
num-traits = "*"
