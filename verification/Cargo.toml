[package]
name = "wasm-opt"
version = "0.132.0"
edition = "2021"
publish = false

[dependencies]
thiserror = "1"
