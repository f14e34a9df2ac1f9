[package]
name = "redis_datatype"
version = "0.1.0"
edition = "2021"
publish = false

[dependencies]
redis = "*"
serde = "1"
serde_json = "1"
uuid = { version = "1", features = ["v4"] }
