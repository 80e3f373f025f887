[package]
name = "ffi_decode"
version = "0.1.0"
edition = "2021"
publish = false

[dependencies]
napi = "2"
