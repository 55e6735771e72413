[package]
name = "atomic_array"
version = "0.1.0"
edition = "2021"
publish = false

[dependencies]
atomic-ref2 = "*"
