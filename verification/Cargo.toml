[package]
name = "cosmos_gravity"
version = "0.1.0"
edition = "2021"
publish = false

[dependencies]
clarity = "*"
deep_space = "*"
num256 = "*"
web30 = "*"
