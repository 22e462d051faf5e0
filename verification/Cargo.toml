[package]
name = "percpu"
version = "0.2.0"
edition = "2021"
publish = false

[dependencies]
cfg-if = "1.0"
kernel_guard = "0.1"
spin = "0.9"
x86 = "0.52"
