[package]
name = "resource_limit_test"
version = "0.1.0"
edition = "2021"
publish = false

[dependencies]
chrono = "*"
fastly = "*"
log = "*"
log-fastly = "*"
serde_json = "*"
