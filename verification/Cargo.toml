[package]
name = "receipt_doc"
version = "0.1.0"
edition = "2021"
publish = false

[dependencies]
web3 = { version = "*", default-features = false }
mongodb = "*"

[dev-dependencies]
hex = "*"
