[package]
name = "ding_push"
version = "0.1.0"
edition = "2021"
publish = false

[dependencies]
hyper = { version = "0.14", features = ["full"] }
mlua = { version = "0.9", features = ["lua54", "vendored", "async"] }
tokio = { version = "1", features = ["full"] }
log = "0.4"
env_logger = "*"
