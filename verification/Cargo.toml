[package]
name = "shell_fur"
version = "0.1.0"
edition = "2021"
publish = false

[dependencies]
wgpu = { version = "0.19", default-features = false, features = ["spirv"] }
glam = "0.24"
image = { version = "0.24", default-features = false, features = ["png"] }
obj-rs = "0.7"
pollster = "0.3"
env_logger = { version = "0.10", default-features = false }
log = "0.4"
spirv-std = "0.9"
