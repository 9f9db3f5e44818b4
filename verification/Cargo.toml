[package]
name = "ethercat_hal"
version = "0.1.0"
edition = "2021"
publish = false

[dependencies]
anyhow = "1"
smol = "2"
tracing = "0.1"
