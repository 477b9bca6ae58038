[package]
name = "ballista"
version = "0.1.0"
edition = "2021"
publish = false

[dependencies]
futures = "*"
smol = "*"
tonic = "*"
