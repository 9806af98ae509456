[package]
name = "tower-http-compression"
version = "0.1.0"
edition = "2021"
publish = false

[dependencies]
async-compression = { version = "0.3", features = ["tokio", "brotli", "gzip", "zlib"] }
bytes = "1"
futures = "0.3"
futures-core = "0.3"
http = "0.2"
http-body = "0.4"
hyper = { version = "0.14", features = ["client", "http1", "tcp"] }
pin-project = "1"
pin-project-lite = "0.2"
tokio = { version = "1", features = ["macros", "rt-multi-thread"] }
tokio-util = { version = "0.6", features = ["codec", "io"] }
tower = "0.4"
tower-layer = "0.3"
tower-service = "0.3"
