[package]
name = "mitemp"
version = "0.1.0"
edition = "2021"
publish = false

[dependencies]
btleplug = "*"
log = "0.4"
tokio-stream = "0.1"
uuid = "*"
