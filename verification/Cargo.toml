[package]
name = "kernel_core"
version = "0.1.0"
edition = "2021"
publish = false

[dependencies]
cortex-a = "8"
tock-registers = "0.8"
