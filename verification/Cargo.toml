[package]
name = "libinko"
version = "0.1.0"
edition = "2021"
publish = false

[dependencies]
num_cpus = "=1.17.0"
ahash = "=0.7.8"
rand = "0.7"
