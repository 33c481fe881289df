[package]
name = "kmod"
version = "0.1.0"
edition = "2021"
publish = false

[dependencies]
kmod-sys = "=0.1.2"
errno = "=0.3.14"
