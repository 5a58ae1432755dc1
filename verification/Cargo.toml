[package]
name = "vaccine_ledger"
version = "0.1.0"
edition = "2021"
publish = false

[dependencies]
ark-bls12-381 = "0.3"
ark-groth16 = "0.3"
ark-crypto-primitives = "0.3"
ark-serialize = "0.3"
arkworks-native-gadgets = "1.2"

[dev-dependencies]
ark-relations = "0.3"
ark-std = "0.3"
ark-ff = "0.3"
rand = "0.8"
