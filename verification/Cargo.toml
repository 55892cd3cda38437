[package]
name = "ble_pipeline"
version = "0.1.0"
edition = "2021"
publish = false

[dependencies]
btleplug = "0.4"
async-std = "*"
