[package]
name = "tsmlir"
version = "0.1.0"
edition = "2021"
publish = false

[dependencies]
mlir-sys = "0.2.2"
