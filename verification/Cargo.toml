[package]
name = "capture_trigger"
version = "0.1.0"
edition = "2021"
publish = false

[dependencies]
ctrlc = "=3.5.2"
failure = "=0.1.8"
log = "=0.4.34"
pyo3 = "=0.30.1"
rppal = "=0.9.0"
