[package]
name = "sprsolve"
version = "0.1.0"
edition = "2021"
publish = false

[dependencies]
cauchy = "*"
num-complex = "*"
num-traits = "*"
