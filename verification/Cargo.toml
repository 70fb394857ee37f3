[package]
name = "http_reads"
version = "0.1.0"
edition = "2021"
publish = false

[dependencies]
bytes = "1"
compio = { version = "*", features = ["time"] }
send_wrapper = { version = "0.6", features = ["futures"] }
tracing = "0.1"
