[package]
name = "persistent_mongo"
version = "0.1.0"
edition = "2021"
publish = false

[dependencies]
colored = "*"
mongodb = "*"
standard-error = "*"
tokio = { version = "*", features = ["sync", "rt", "time", "macros"] }
