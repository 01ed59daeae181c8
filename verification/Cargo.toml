[package]
name = "native_ecc"
version = "0.1.0"
edition = "2021"
publish = false

[dependencies]
halo2curves = "=0.10.0"
halo2_proofs = "0.3"
ff = "=0.13.1"
group = "=0.13.0"
rand_core = "=0.6.4"

[dev-dependencies]
rand = "0.8"
ark-std = "=0.4.0"
