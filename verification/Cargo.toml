[package]
name = "zk_constraints"
version = "0.1.0"
edition = "2021"
publish = false

[dependencies]
bulletproofs = { version = "=3.0.1", features = ["yoloproofs"] }
curve25519-dalek = "=3.2.1"
curve25519-dalek-ng = "=3.0.3"
merlin = "=2.0.1"
rand = "=0.7.3"
subtle = "=2.6.1"
