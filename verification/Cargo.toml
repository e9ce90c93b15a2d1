[package]
name = "hel_thread_pool"
version = "0.1.0"
edition = "2021"
publish = false

[dependencies]
crossbeam-channel = "=0.5.17"
num_cpus = "=1.17.0"
jod-thread = "*"
