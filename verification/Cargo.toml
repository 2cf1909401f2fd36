[package]
name = "directio"
version = "0.1.0"
edition = "2021"
publish = false

[dependencies]
cfg-if = "1"
libc = "0.2"
winapi = { version = "0.3", features = ["winbase"] }
