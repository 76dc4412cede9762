[package]
name = "mioco"
version = "0.1.0"
edition = "2021"
publish = false

[dependencies]
slab = "0.3"
num_cpus = "1"
mio = "0.6"
context = "2"
lazy_static = "1"
