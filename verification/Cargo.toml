[package]
name = "rvvisor"
version = "0.1.0"
edition = "2021"
publish = false

[dependencies]
rustsbi = "0.4"
spin = "0.9"
lazy_static = "1"
log = "0.4"
