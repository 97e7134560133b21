[package]
name = "js"
version = "0.1.0"
edition = "2021"
publish = false

[dependencies]
libc = "0.2"
log = "0.4"
num = "0.4"
heapsize = "0.4"
rustc-serialize = "0.3"
mozjs_sys = "*"
