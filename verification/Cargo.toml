[package]
name = "mongo_migrate"
version = "0.1.0"
edition = "2021"
publish = false

[dependencies]
dotenvy = "0.15"
env_logger = "0.11"
futures = "0.3"
log = "0.4"
mongodb = "3"
tokio = { version = "1", features = ["rt-multi-thread", "macros"] }
