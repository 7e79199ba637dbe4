[package]
name = "asm_lowering"
version = "0.1.0"
edition = "2021"
publish = false

[dependencies]
byteorder = "1"
rustc-ap-syntax = ">=175.0.0, <228.0.0"
