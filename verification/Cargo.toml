[package]
name = "groth16_verifier"
version = "0.1.0"
edition = "2021"
publish = false

[dependencies]
ark-bls12-381 = "0.4"
ark-ec = "0.4"
ark-ff = "0.4"
ark-serialize = "0.4"
ark-std = "0.4"

[dev-dependencies]
ark-groth16 = "0.4"
ark-relations = "0.4"
ark-snark = "0.4"
