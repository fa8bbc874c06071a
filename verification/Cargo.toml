[package]
name = "rv32_core"
version = "0.1.0"
edition = "2021"
publish = false

[dependencies]
rb = "*"
gdbstub = "*"
gdbstub_arch = "*"
rodio = { version = "*", default-features = false }
