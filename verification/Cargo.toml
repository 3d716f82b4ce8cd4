[package]
name = "exemplars"
version = "0.1.0"
edition = "2021"

[dependencies]
bigdecimal = "0.4"
rust_decimal = "*"
uuid = "*"
