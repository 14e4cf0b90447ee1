[package]
name = "orion_core"
version = "0.1.0"
edition = "2021"
publish = false

[dependencies]
esp-idf-sys = "*"
