[package]
name = "cpu_peg"
version = "0.1.0"
edition = "2021"
publish = false

[dependencies]
clap = { version = "4", features = ["derive"] }
core_affinity = "0.8"
