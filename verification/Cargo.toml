[package]
name = "redocs"
version = "0.1.0"
edition = "2021"
publish = false

[dependencies]
build_html = "*"
pyo3 = "*"
