[package]
name = "neko_cli"
version = "0.1.0"
edition = "2021"
publish = false

[dependencies]
sha2 = "0.10"
signal-hook = "0.3"
libc = "0.2"
getrandom = "0.2"
