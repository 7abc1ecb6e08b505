[package]
name = "auth_api"
version = "0.1.0"
edition = "2021"
publish = false

[dependencies]
axum = "=0.7.9"
bcrypt = "=0.15.1"
chrono = { version = "=0.4.45", features = ["serde"] }
dotenvy = "=0.15.7"
jsonwebtoken = "=9.3.1"
redis = { version = "=0.25.5", features = ["tokio-comp"] }
serde = { version = "=1.0.229", features = ["derive"] }
serde_json = { version = "=1.0.154", features = ["raw_value", "preserve_order"] }
sqlx = { version = "=0.7.4", default-features = false, features = ["postgres", "runtime-tokio", "uuid", "chrono", "macros"] }
time = "=0.3.55"
tokio = { version = "=1.54.1", features = ["full"] }
tower_governor = "=0.4.3"
tracing = "=0.1.44"
tracing-subscriber = { version = "=0.3.23", features = ["env-filter", "json"] }
uuid = { version = "=1.29.1", features = ["v4", "serde"] }
validator = { version = "=0.18.1", features = ["derive"] }
