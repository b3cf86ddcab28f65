[package]
name = "pyo3_asyncio"
version = "0.1.0"
edition = "2021"
publish = false

[dependencies]
futures = "0.3"
once_cell = "1"
pyo3 = "0.20"
tokio = { version = "1", features = ["rt", "rt-multi-thread", "time", "macros"] }
