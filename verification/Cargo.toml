[package]
name = "codec"
version = "0.1.0"
edition = "2021"
publish = false

[dependencies]
zstd = "*"
wasm-bindgen = "*"
