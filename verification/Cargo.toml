[package]
name = "vmm_core"
version = "0.1.0"
edition = "2021"
publish = false

[dependencies]
timerfd = "=1.6.0"
time = "=0.1.45"
rustix = "=0.38.44"
libc = "=0.2.190"
serde = "=1.0.229"
serde_derive = "=1.0.229"
