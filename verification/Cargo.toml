[package]
name = "groth16_verifier"
version = "0.1.0"
edition = "2021"
publish = false

[dependencies]
ff = "0.5"
group = "0.2"
pairing = "0.15"
