[package]
name = "rpassword"
version = "1.0.0"
edition = "2021"
publish = false

[dependencies]
libc = "0.2"
winapi = "0.2"
kernel32-sys = "0.2"
