[package]
name = "sendto"
version = "0.1.0"
edition = "2021"
publish = false

[dependencies]
libc = "*"
mio = { version = "*", features = ["net"] }
nix = { version = "*", features = ["socket", "net", "time", "uio"] }
