[package]
name = "cpu1sec"
version = "0.1.0"
edition = "2021"
publish = false

[dependencies]
anyhow = "*"
log = "*"
munin-plugin = "*"
procfs = "*"
simple_logger = "*"
