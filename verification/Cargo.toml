[package]
name = "hwi"
version = "0.1.0"
edition = "2021"
publish = false

[dependencies]
bitcoin = "0.32"
serde = "1"
serde_json = "1"
miniscript = "12"
pyo3 = "0.22"
bdk_wallet = "1"
