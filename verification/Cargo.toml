[package]
name = "hydroflux-solver-2d"
version = "0.1.0"
edition = "2021"
publish = false

[dependencies]
ndarray = "=0.16.1"
thiserror = "=2.0.21"
flate2 = "=1.1.10"
surtgis-core = "=1.6.0"
