[package]
name = "star_domain"
version = "0.1.0"
edition = "2021"
publish = false

[dependencies]
starstuff-types = "*"
pyo3 = "*"
