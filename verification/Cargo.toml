[package]
name = "arangors_adapter"
version = "0.1.0"
edition = "2021"
publish = false

[dependencies]
arangors = { version = "0.5", default-features = false, features = ["rocksdb"] }
async-trait = "=0.1.92"
casbin = "~2.0"
serde = { version = "=1.0.229", features = ["derive"] }
serde_json = "=1.0.154"
