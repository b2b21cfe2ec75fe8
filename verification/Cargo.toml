[package]
name = "ttl_store"
version = "0.1.0"
edition = "2021"
publish = false

[dependencies]
dotenv = "0.15"
env_logger = { version = "0.10", default-features = false }
hyper = { version = "0.14", features = ["server", "http1", "tcp"] }
log = "0.4"
serde = { version = "1", features = ["derive"] }
serde_json = "1"
tokio = { version = "1", features = ["macros", "rt-multi-thread", "signal", "sync"] }
