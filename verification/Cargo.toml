[package]
name = "exec_strategy"
version = "0.1.0"
edition = "2021"
publish = false

[dependencies]
num_cpus = "*"
futures = "*"
slab = "*"
parking_lot = "*"
