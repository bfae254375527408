[package]
name = "async_bench"
version = "0.1.0"
edition = "2021"
publish = false

[dependencies]
flume = "*"
crossbeam = "*"
tokio = { version = "*", features = ["rt", "rt-multi-thread", "sync"] }
async-std = "*"
async-barrier = "*"
