[package]
name = "s3em"
version = "0.1.0"
edition = "2021"
publish = false

[dependencies]
sha2 = "0.10"
hex = "0.4"
uuid = { version = "1", features = ["v4"] }
chrono = "0.4"
serde = { version = "1", features = ["derive"] }
serde_json = "1"
jsonwebtoken = "9"
axum = { version = "0.8", features = ["multipart"] }
tokio = { version = "1", features = ["full"] }
async-stream = "0.3"
futures-util = "0.3"
r2d2 = "0.8"
r2d2_sqlite = { version = "*", features = ["bundled"] }
aws-sdk-s3 = "1"
aws-config = "1"
anyhow = "1"
tracing = "0.1"
tracing-subscriber = { version = "0.3", features = ["env-filter"] }
