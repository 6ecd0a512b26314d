[package]
name = "kyx_governance"
version = "0.1.0"
edition = "2021"
publish = false

[dependencies]
serde_json = "=1.0.151"
serde = { version = "=1.0.229", features = ["derive"] }
uuid = { version = "=1.27.0", features = ["v4"] }
governor = "=0.10.4"
prometheus = "=0.14.0"
ntex = { version = "=2.18.0", features = ["tokio"] }
ntex-cors = "=2.1.0"
tokio = { version = "=1.53.2", features = ["sync", "rt", "time", "macros"] }
futures = "=0.3.34"
reqwest = { version = "=0.13.5", default-features = false, features = ["json"] }
dotenvy = "=0.15.7"
log = "=0.4.34"
env_logger = "=0.11.11"
