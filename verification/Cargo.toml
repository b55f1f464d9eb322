[package]
name = "multigpu"
version = "0.1.0"
edition = "2021"
publish = false

[dependencies]
ash = "0.38"
libc = "0.2"
thiserror = "2"
tracing = "0.1"
