[package]
name = "bounded_report"
version = "0.1.0"
edition = "2021"
publish = false

[dependencies]
heapless = "0.8"
display-interface = "*"
tinybmp = "*"
embassy-executor = "*"
syn = "*"
quote = "*"
proc-macro2 = "*"
tempfile = "*"
