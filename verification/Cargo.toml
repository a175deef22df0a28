[package]
name = "qmc"
version = "0.1.0"
edition = "2021"
publish = false

[dependencies]
libm = "=0.2.16"
ndarray = "=0.15.6"
ndarray-linalg = "=0.16.0"
ndarray-rand = "=0.14.0"
rand = "=0.8.8"
