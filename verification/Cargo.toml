[package]
name = "redis_module"
version = "0.1.0"
edition = "2021"
publish = false

[dependencies]
bitflags = "1"
libc = "0.2"
