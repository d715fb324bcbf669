[package]
name = "block_core"
version = "0.1.0"
edition = "2021"
publish = false

[dependencies]
alloy-consensus = "*"
alloy-primitives = "*"
alloy-rlp = "*"
