[package]
name = "posix_fs"
version = "0.1.0"
edition = "2021"
publish = false

[dependencies]
libc = "0.2"
users = "0.11"
