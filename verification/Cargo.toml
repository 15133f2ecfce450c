[package]
name = "ascii_pipeline"
version = "0.1.0"
edition = "2021"
publish = false

[dependencies]
crossbeam-channel = "0.5"
rand = "0.8"
rand_xorshift = "0.3"
num_cpus = "1"
