[package]
name = "dkg_primitives"
version = "0.1.0"
edition = "2021"
publish = false

[dependencies]
parity-scale-codec = { version = "=3.7.5", default-features = false, features = ["std"] }
rlp = "=0.5.2"
k256 = { version = "=0.13.4", features = ["ecdsa"] }
sp-core = { version = "=43.0.0", default-features = false, features = ["serde"] }
webb-proposals = { version = "=0.5.4", default-features = false, features = ["std", "evm", "substrate", "scale"] }
