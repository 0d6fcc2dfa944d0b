[package]
name = "neolink"
version = "0.1.0"
edition = "2021"
publish = false

[dependencies]
time = { version = "*", features = ["local-offset"] }
structopt = "*"
crossbeam-channel = "*"
v4l = "*"
