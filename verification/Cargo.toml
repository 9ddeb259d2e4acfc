[package]
name = "line_formatter"
version = "0.1.0"
edition = "2021"

[dependencies]
nu-ansi-term = "*"
log = "*"
flexi_logger = "*"
chrono = "*"
