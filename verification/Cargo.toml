[package]
name = "kba"
version = "0.1.0"
edition = "2021"
publish = false

[dependencies]
anyhow = "=1.0.104"
cranelift = "=0.123.19"
cranelift-jit = "=0.123.19"
cranelift-module = "=0.123.19"
cranelift-native = "=0.123.19"
itertools = "=0.15.0"
proc-bitfield = "=0.5.3"
sdl2 = "=0.38.0"
