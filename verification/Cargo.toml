[package]
name = "dir_meta"
version = "0.1.0"
edition = "2021"
publish = false

[dependencies]
async-channel = "*"
async-fs = "*"
blocking = "*"
byte_prefix = "*"
chrono = "*"
file-format = "*"
futures-lite = "*"
humantime = "*"
inotify = "*"
smol = "*"
tai64 = "*"
