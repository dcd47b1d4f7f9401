[package]
name = "libpulse-binding"
version = "0.1.0"
edition = "2021"
publish = false

[dependencies]
libpulse-sys = { version = "=1.23.0", features = ["pa_v15"] }
libc = "=0.2.191"
