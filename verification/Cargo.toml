[package]
name = "dashboard_core"
version = "0.1.0"
edition = "2021"
publish = false

[dependencies]
axum = "=0.8.9"
chrono = { version = "=0.4.45", features = ["serde"] }
dotenvy = "=0.15.7"
redis = { version = "=1.7.1", features = ["tokio-comp"] }
reqwest = { version = "=0.13.5", default-features = false, features = ["json"] }
rumqttc = "=0.25.1"
serde = { version = "=1.0.229", features = ["derive"] }
serde_json = "*"
sqlx = { version = "=0.9.0", default-features = false, features = ["runtime-tokio", "postgres", "chrono"] }
tera = { version = "=2.4.0", features = ["glob_fs"] }
tokio = { version = "=1.53.2", features = ["macros", "rt-multi-thread", "sync", "net", "time"] }
tower-http = { version = "=0.7.1", features = ["fs"] }
tracing = "*"
tracing-appender = "*"
tracing-subscriber = { version = "=0.3.23", features = ["env-filter"] }
