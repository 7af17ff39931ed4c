[package]
name = "limitlayer_protocol"
version = "0.1.0"
edition = "2021"
publish = false

[dependencies]
anchor-lang = { version = "*", features = ["init-if-needed"] }
ephemeral-rollups-sdk = { version = "*", features = ["anchor"] }
