[package]
name = "earlyboot"
version = "0.1.0"
edition = "2021"

[dependencies]
bitfield-struct = "*"
volatile = "*"
