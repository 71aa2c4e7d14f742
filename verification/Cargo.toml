[package]
name = "mshv_backend"
version = "0.1.0"
edition = "2021"
publish = false

[dependencies]
libc = "*"
vmm-sys-util = "*"
epoll = "*"
mshv-bindings = "*"
mshv-ioctls = "*"
serde = "*"
serde_derive = "*"
