[package]
name = "clarirs"
version = "0.1.0"
edition = "2021"
publish = false

[dependencies]
num-bigint = "0.4"
pyo3 = { version = "0.22", features = ["num-bigint"] }
dashmap = "6"
log = "0.4"
