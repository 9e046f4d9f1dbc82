[package]
name = "discuits_api"
version = "0.1.0"
edition = "2021"
publish = false

[dependencies]
arangors = "*"
chrono = "*"
futures = "*"
serde = { version = "*", features = ["derive"] }
serde_json = "*"
tokio = { version = "*", default-features = false, features = ["sync"] }
uuid = { version = "*", features = ["v4"] }
