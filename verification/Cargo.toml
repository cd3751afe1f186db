[package]
name = "kernel_core"
version = "0.1.0"
edition = "2021"
publish = false

[dependencies]
heapless = "=0.8.0"
limine = "=0.5.0"
log = "=0.4.34"
spin = "=0.12.3"
talc = { version = "=4.4.3", default-features = false }
x86_64 = { version = "=0.15.5", default-features = false, features = ["instructions"] }
