[package]
name = "plonk_proof"
version = "0.1.0"
edition = "2021"
publish = false

[dependencies]
ark-ec = "0.3.0"
ark-ff = "0.3.0"
array-init = "2.0"
num-bigint = { version = "0.4", features = ["rand"] }
rand = "0.8"
