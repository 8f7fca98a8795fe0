[package]
name = "ifconfig_fastly"
version = "0.1.0"
edition = "2021"
publish = false

[dependencies]
fastly = "*"
log = "*"
log-fastly = "*"
