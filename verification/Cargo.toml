[package]
name = "task_thread_pool"
version = "0.1.0"
edition = "2021"
publish = false

[dependencies]
fnv = "1.0"
futures = { version = "0.3", features = ["thread-pool"] }
