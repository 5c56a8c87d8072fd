[package]
name = "zkredit"
version = "0.1.0"
edition = "2021"
publish = false

[dependencies]
sp1-zkvm = "*"

[dev-dependencies]
alloy-sol-types = "*"
