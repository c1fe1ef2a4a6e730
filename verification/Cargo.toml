[package]
name = "operator_runtime"
version = "0.1.0"
edition = "2021"
publish = false

[dependencies]
aligned-vec = "=0.5.0"
arrow = { version = "=45.0.0", default-features = false, features = ["pyarrow"] }
chrono = { version = "=0.4.38", default-features = false }
eyre = "=0.6.14"
flume = "=0.10.14"
iceoryx-rs = "=0.1.0"
pyo3 = "=0.19.2"
pythonize = "=0.19.0"
tokio = { version = "=1.54.1", default-features = false, features = ["sync", "rt"] }
tracing = "=0.1.44"
