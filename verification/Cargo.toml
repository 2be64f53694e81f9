[package]
name = "kiko"
version = "0.1.0"
edition = "2021"
publish = false

[dependencies]
tiny_id = "*"
tokio = { version = "1", features = ["full"] }
axum = { version = "0.8", features = ["ws"] }
serde = { version = "1", features = ["derive"] }
serde_json = "1"
chrono = "0.4"
tower-http = { version = "*", features = ["cors", "trace"] }
tracing = "*"
tracing-subscriber = { version = "*", features = ["env-filter"] }
color-eyre = "*"
thiserror = "*"
