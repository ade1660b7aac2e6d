[package]
name = "powell_options"
version = "0.1.0"
edition = "2021"
publish = false

[dependencies]
scirs2-optimize = "=0.1.5"
pyo3 = "=0.29.3"
