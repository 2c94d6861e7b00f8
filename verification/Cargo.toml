[package]
name = "pg_renderer"
version = "0.1.0"
edition = "2021"
publish = false

[dependencies]
wgpu = "=0.19.4"
slotmap = "=1.1.1"
eyre = "=0.6.14"
tracing = "=0.1.44"
tracing-subscriber = "=0.3.23"
