[package]
name = "phytium_mci"
version = "0.1.0"
edition = "2021"
publish = false

[dependencies]
lazy_static = "1"
log = "0.4"
no-std-async = "*"
rlsf = "0.2"
spin = "0.9"
