[package]
name = "pretty_env_log_test"
version = "0.1.0"
edition = "2021"
publish = false

[dependencies]
proc-macro2 = "1"

[dev-dependencies]
pretty_env_logger = "*"
