[package]
name = "slowcache"
version = "0.1.0"
edition = "2021"
publish = false

[dependencies]
tokio = { version = "1", features = ["macros", "rt-multi-thread", "sync", "time"] }
hyper = { version = "0.14", features = ["server", "client", "http1", "tcp"] }
reqwest = { version = "0.11", default-features = false }
hyper-reverse-proxy = "0.5"
