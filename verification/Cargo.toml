[package]
name = "rust6502"
version = "0.1.0"
edition = "2021"

[dependencies]
bitfield = "*"
