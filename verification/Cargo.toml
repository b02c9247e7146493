[package]
name = "kissat_py"
version = "0.1.0"
edition = "2021"
publish = false

[dependencies]
rustsat = "=0.5.1"
rustsat-kissat = "=0.2.1"
batsat = "*"
pyo3 = { version = "=0.29.3", features = ["extension-module", "abi3-py38"] }
