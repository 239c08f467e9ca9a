[package]
name = "beacon_verify"
version = "0.1.0"
edition = "2021"
publish = false

[dependencies]
drand-verify = "=0.6.2"
serde = { version = "=1.0.229", features = ["derive"] }

[dev-dependencies]
hex = "=0.4.3"
sha2 = "=0.10.9"
bls12_381 = { version = "=0.9.0", features = ["experimental"] }
