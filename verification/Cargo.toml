[package]
name = "atsamd_regs"
version = "0.1.0"
edition = "2021"
publish = false

[dependencies]
vcell = "0.1"
