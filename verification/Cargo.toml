[package]
name = "human_panic_logger"
version = "0.1.0"
edition = "2021"
publish = false

[dependencies]
backtrace = "*"
termcolor = "*"
simplelog = "*"
log = "*"
