[package]
name = "tulpar_api"
version = "0.1.0"
edition = "2021"
publish = false

[dependencies]
lz4_flex = "*"
serde_json = "*"
serde = { version = "*", features = ["derive"] }
axum = "*"
tokio = { version = "*", features = ["full"] }
sqlx = { version = "*", features = ["sqlite", "runtime-tokio"] }
dotenvy = "*"
thiserror = "*"
tracing = "*"
tracing-subscriber = { version = "*", features = ["env-filter", "fmt"] }
tower_governor = "*"
governor = "*"
tower-http = { version = "*", features = ["cors", "trace", "request-id", "util"] }
