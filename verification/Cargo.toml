[package]
name = "cw_abc"
version = "0.1.0"
edition = "2021"
publish = false

[dependencies]
rust_decimal = "1"
cosmwasm-std = "1"
