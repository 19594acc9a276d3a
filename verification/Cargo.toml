[package]
name = "camera"
version = "0.1.0"
edition = "2021"
publish = false

[dependencies]
smelling_salts = "=0.1.0"
