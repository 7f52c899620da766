[package]
name = "manta_pay"
version = "0.1.0"
edition = "2021"
publish = false

[dependencies]
ark-bls12-381 = { version = "0.2.0", default-features = false, features = ["curve"] }
ark-crypto-primitives = { version = "0.2.0", features = ["r1cs"] }
ark-ec = "0.2.0"
ark-ed-on-bls12-381 = { version = "0.2.0", features = ["r1cs"] }
ark-ff = "0.2.0"
ark-groth16 = { version = "0.2.0", features = ["r1cs"] }
ark-r1cs-std = "0.2.0"
ark-relations = "0.2.0"
ark-serialize = "0.2.0"
ark-std = "0.2.0"
blake2 = "0.9"
rand_chacha = "0.2.2"
