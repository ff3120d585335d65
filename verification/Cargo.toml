[package]
name = "feature_flags"
version = "0.1.0"
edition = "2021"
publish = false

[dependencies]
dotenv = "0.15"
mongodb = { version = "=2.8.2", features = ["tokio-sync"] }
serde = { version = "1", features = ["derive"] }
