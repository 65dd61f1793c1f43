[package]
name = "holdcrypt"
version = "0.1.0"
edition = "2021"
publish = false

[dependencies]
aws-config = "0.8"
aws-sdk-dynamodb = "0.8"
lambda_http = "0.5"
lambda_runtime = "0.5"
reqwest = { version = "0.9", default-features = false }
serde = { version = "1", features = ["derive"] }
serde_json = "1"
tokio = { version = "1", features = ["macros"] }
tracing = "0.1"
tracing-subscriber = "0.3"
uuid = { version = "0.8", features = ["v4"] }
