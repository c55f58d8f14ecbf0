[package]
name = "bench_matrix"
version = "0.1.0"
edition = "2021"
publish = false

[dependencies]
itertools = "0.14"
criterion = { version = "0.5", features = ["async_tokio"] }
tokio = { version = "1", features = ["rt", "rt-multi-thread"] }
