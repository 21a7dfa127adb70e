[package]
name = "schannel"
version = "0.1.0"
edition = "2021"
publish = false

[dependencies]
kernel32-sys = "0.2"
libc = "0.2"
secur32-sys = "0.2"
winapi = "0.2"
