[package]
name = "matmul_engine"
version = "0.1.0"
edition = "2021"
publish = false

[dependencies]
ash = "0.37"
log = "0.4"
nalgebra = "0.32"
rand = "0.8"
simplelog = "0.12"
