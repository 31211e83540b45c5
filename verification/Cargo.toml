[package]
name = "logd"
version = "0.1.0"
edition = "2021"
publish = false

[dependencies]
libsystemd = "*"
mio = { version = "*", features = ["os-poll", "net"] }
libc = "*"
log = "*"
simple-logging = "*"
