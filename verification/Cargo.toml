[package]
name = "backend"
version = "0.1.0"
edition = "2021"
publish = false

[dependencies]
anyhow = "1"
axum = "0.8"
axum_session = "*"
axum_session_redispool = "*"
log = "0.4"
serde = { version = "1", features = ["derive"] }
serde_json = "1"
serde_qs = { version = "*", features = ["axum"] }
sqlx = { version = "0.8", default-features = false, features = ["postgres", "runtime-tokio", "uuid"] }
tower-http = { version = "0.6", features = ["cors", "trace"] }
tracing = "0.1"
uuid = { version = "1", features = ["serde"] }
