[package]
name = "redis_middleware"
version = "0.1.0"
edition = "2021"
publish = false

[dependencies]
r2d2 = "0.8"
r2d2_redis = "0.14"
redis = "*"
iron = "*"
