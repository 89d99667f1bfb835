[package]
name = "orion_runtime"
version = "0.1.0"
edition = "2021"
publish = false

[dependencies]
sp-arithmetic = "=29.0.0"
sp-weights = "=37.0.0"
smallvec = "=1.16.4"
sp-core = "=43.0.0"
secp256k1 = "=0.28.2"
