[package]
name = "nesrs"
version = "0.1.0"
edition = "2021"
publish = false

[dependencies]
log = "*"
memmap2 = "*"
pyo3 = { version = "*", features = ["extension-module"] }
sdl2 = "*"
thiserror = "*"
