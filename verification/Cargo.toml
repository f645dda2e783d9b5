[package]
name = "plonk_arith"
version = "0.1.0"
edition = "2021"
publish = false

[dependencies]
ark-ff = "0.4"
ark-ec = "0.4"
ark-poly = "0.4"
ark-serialize = "0.4"
ark-bls12-381 = "0.4"
ark-ed-on-bls12-381 = "0.4"
