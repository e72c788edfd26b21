[package]
name = "vm_writeset"
version = "0.1.0"
edition = "2021"
publish = false

[dependencies]
bcs = "=0.2.1"
bulletproofs = { version = "=5.0.0", default-features = false, features = ["std"] }
curve25519-dalek = "=4.1.3"
merlin = "=3.0.0"
sha3 = "=0.10.9"
