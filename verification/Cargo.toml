[package]
name = "reward_processor"
version = "0.1.0"
edition = "2021"
publish = false

[dependencies]
stylus-sdk = "*"
alloy-sol-types = "*"
