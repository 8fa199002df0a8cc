[package]
name = "uwebsockets_rs"
version = "0.1.0"
edition = "2021"
publish = false

[dependencies]
libuwebsockets-sys = "*"
