[package]
name = "rriscv"
version = "0.1.0"
edition = "2021"
publish = false

[dependencies]
quark = "*"
dtb = "*"
elfloader = "*"
rustyline = "*"
num = "*"
