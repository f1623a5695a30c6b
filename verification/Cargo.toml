[package]
name = "core-graphics2"
version = "0.1.0"
edition = "2021"
publish = false

[dependencies]
bitflags = "2"
block = "0.1"
cfg-if = "1"
core-foundation = "0.10"
dispatch2 = "*"
io-surface = "*"
libc = "0.2"
objc2 = "*"
