[package]
name = "service_registry"
version = "0.1.0"
edition = "2021"
publish = false

[dependencies]
hyper = { version = "=0.14.32", features = ["server", "tcp", "http1", "http2"] }
juniper = { version = "=0.15.12", default-features = false }
juniper_hyper = "=0.8.0"
pretty_env_logger = "=0.4.0"
serde = { version = "1", features = ["std"] }
tokio = { version = "=1.54.1", features = ["macros", "rt-multi-thread"] }
