[package]
name = "doglog"
version = "0.1.0"
edition = "2021"
publish = false

[dependencies]
log = "*"
env_logger = "*"
dogstatsd = "*"
ansi_term = "*"
