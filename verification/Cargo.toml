[package]
name = "incremental_ma"
version = "0.1.0"
edition = "2021"
publish = false

[dependencies]
half = "*"
