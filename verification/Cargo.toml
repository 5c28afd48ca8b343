[package]
name = "jam_crypto"
version = "0.1.0"
edition = "2021"
publish = false

[dependencies]
ark-vrf = { version = "=0.1.1", features = ["bandersnatch", "ring"] }
ed25519-zebra = "=5.0.0"
napi = "=3.14.2"
napi-derive = "=3.6.12"
