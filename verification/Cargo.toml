[package]
name = "boehm_reals"
version = "0.1.0"
edition = "2021"
publish = false

[dependencies]
num-bigint = "=0.4.8"
num-integer = "=0.1.47"
num-traits = "=0.2.19"
radix_fmt = "=1.0.0"
rand = "=0.9.5"
