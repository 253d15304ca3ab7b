[package]
name = "pydriver"
version = "0.1.0"
edition = "2021"
publish = false

[dependencies]
log = "=0.4.35"
pin-project = "=1.1.13"
pyo3 = { version = "=0.28.3", features = ["abi3-py310", "experimental-async"] }
scylla = "=1.9.0"
tokio = { version = "=1.54.1", features = ["rt", "rt-multi-thread"] }
