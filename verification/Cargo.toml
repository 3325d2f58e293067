[package]
name = "rockery"
version = "0.1.0"
edition = "2021"
publish = false

[dependencies]
futures = "0.3"
hyper = { version = "0.14", features = ["client", "server", "http1", "tcp"] }
lazy_static = "1"
rusqlite = "*"
serde_json = "1"
tokio = { version = "1", features = ["macros", "rt-multi-thread", "net"] }
