[package]
name = "poney"
version = "0.1.0"
edition = "2021"
publish = false

[dependencies]
regex = "1"
pyo3 = "0.20"
tokio = { version = "1", features = ["full"] }
hyper = { version = "1", features = ["full"] }
hyper-util = { version = "0.1", features = ["tokio"] }
http-body-util = "0.1"
bytes = "1"
socket2 = { version = "0.5", features = ["all"] }
