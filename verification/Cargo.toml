[package]
name = "dist_file_system"
version = "0.1.0"
edition = "2021"
publish = false

[dependencies]
axum = { version = "*", features = ["multipart"] }
chrono = { version = "*", features = ["clock"] }
serde = { version = "*", features = ["derive"] }
thiserror = "*"
tokio = { version = "*", features = ["full"] }
tower-http = { version = "*", features = ["cors"] }
tracing-subscriber = "*"
uuid = { version = "*", features = ["v4"] }
