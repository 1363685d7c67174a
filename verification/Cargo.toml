[package]
name = "circuit_frontend"
version = "0.1.0"
edition = "2021"
publish = false

[dependencies]
subtle = "2"
comfy-table = "7"
