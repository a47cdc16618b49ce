[package]
name = "hash_chain"
version = "0.1.0"
edition = "2021"
publish = false

[dependencies]
nova-snark = "0.37"
neptune = { version = "13", default-features = false }
bellpepper-core = "0.4"
ff = "0.13"
generic-array = "*"
halo2curves = "0.6"
anyhow = "*"
