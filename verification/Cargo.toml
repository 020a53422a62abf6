[package]
name = "tenant_ops"
version = "0.1.0"
edition = "2021"
publish = false

[dependencies]
chrono = "0.4"
dashmap = "5"
rand = "0.8"
serde = { version = "1", features = ["derive"] }
serde_json = "1"
