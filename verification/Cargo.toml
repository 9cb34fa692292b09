[package]
name = "qualbin"
version = "0.1.0"
edition = "2021"
publish = false

[dependencies]
clap = { version = "*", features = ["derive"] }
num_cpus = "*"
rust-htslib = "*"
