[package]
name = "hyper-system-resolver"
version = "0.1.0"
edition = "2021"
publish = false

[dependencies]
derive_builder = "*"
dns-lookup = "*"
hyper = { version = "0.14", features = ["client", "http1", "tcp"] }
libc = "0.2"
tokio = { version = "1", features = ["rt"] }
tower-service = "0.3"
tracing = "0.1"
