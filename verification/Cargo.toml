[package]
name = "wast_testgen"
version = "0.1.0"
edition = "2021"
publish = false

[dependencies]
anyhow = "1"
clap = { version = "3", features = ["derive"] }
wabt = "*"
wasmer = "2"
wasmer-wasi = "2"
