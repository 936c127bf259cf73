[package]
name = "greenfloor_native"
version = "0.1.0"
edition = "2021"
publish = false

[dependencies]
chia-protocol = "=0.36.1"
chia-puzzle-types = "=0.36.1"
chia-sdk-driver = "=0.36.0"
chia-sdk-signer = "=0.36.0"
chia-sdk-types = "=0.36.0"
chia-traits = "=0.36.1"
chia-bls = "=0.36.1"
clvm-utils = "=0.36.1"
clvmr = "=0.16.4"
pyo3 = "=0.30.1"

[dev-dependencies]
chia-puzzles = "=0.20.3"
