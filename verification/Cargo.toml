[package]
name = "pycurse"
version = "0.1.0"
edition = "2021"
publish = false

[dependencies]
crossbeam = "0.8"
curl = "0.4"
lazy_static = "1"
pyo3 = "0.22"
