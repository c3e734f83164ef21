[package]
name = "labwhere"
version = "0.1.0"
edition = "2021"
publish = false

[dependencies]
sqlx = { version = "=0.9.0", default-features = false, features = ["runtime-tokio", "sqlite", "migrate"] }
tokio = { version = "=1.53.2", features = ["rt", "rt-multi-thread", "macros", "net", "time"] }
hyper = { version = "=1.12.0", features = ["server", "http1"] }
hyper-util = { version = "=0.1.21", features = ["tokio"] }
http-body = "=1.1.0"
http-body-util = "=0.1.5"
log = "=0.4.34"
env_logger = "=0.11.11"
