[package]
name = "greet_mcp"
version = "0.1.0"
edition = "2021"
publish = false

[dependencies]
anyhow = "1"
pyo3 = "*"
pyo3-async-runtimes = { version = "*", features = ["tokio-runtime"] }
rmcp = { version = "*", features = ["server", "transport-io"] }
serde_json = "1"
tokio = { version = "1", features = ["rt-multi-thread"] }
