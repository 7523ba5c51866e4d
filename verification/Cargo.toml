[package]
name = "plonk_circuit"
version = "0.1.0"
edition = "2021"
publish = false

[dependencies]
dusk-bls12_381 = "=0.13.0"
dusk-jubjub = "=0.14.2"
dusk-bytes = ">=0.1.0, <0.1.8"
canonical = "=0.6.6"
canonical_derive = "=0.6.0"
derive-hex = "<0.1.3"
