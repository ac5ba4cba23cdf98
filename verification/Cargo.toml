[package]
name = "orchestrator"
version = "0.1.0"
edition = "2021"
publish = false

[dependencies]
exec = "0.3.1"
tempfile = "3"
