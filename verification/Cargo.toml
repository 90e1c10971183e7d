[package]
name = "liquid_splice"
version = "0.1.0"
edition = "2021"
publish = false

[dependencies]
kstring = "=2.0.2"
liquid-core = "=0.26.11"
