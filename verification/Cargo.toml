[package]
name = "squiggle"
version = "0.1.0"
edition = "2021"
publish = false

[dependencies]
alloy-sol-types = "=0.8.20"
openzeppelin-stylus = { version = "=0.3.0", features = ["export-abi"] }
ruint = { version = "=1.16.0", default-features = false }
stylus-sdk = { version = "=0.9.0", features = ["export-abi"] }
