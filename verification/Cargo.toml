[package]
name = "bios"
version = "0.1.0"
edition = "2021"
publish = false

[dependencies]
x86 = "=0.52.0"
