[package]
name = "rend3"
version = "0.1.0"
edition = "2021"
publish = false

[dependencies]
wgpu = "27"
log = "0.4"
profiling = "1"
