[package]
name = "employee_roster"
version = "0.1.0"
edition = "2021"
publish = false

[dependencies]
uuid = "=1.27.0"
sqlx = { version = "=0.9.0", default-features = false, features = ["postgres", "runtime-tokio", "bigdecimal"] }
axum = "=0.8.9"
tokio = { version = "=1.53.2", features = ["rt-multi-thread", "macros", "net"] }
serde = { version = "=1.0.229", features = ["derive"] }
serde_json = { version = "=1.0.151", features = ["arbitrary_precision"] }
bigdecimal = { version = "=0.4.11", features = ["serde-json"] }
chrono = "=0.4.45"
dotenvy = "=0.15.7"
anyhow = "=1.0.104"
thiserror = "=2.0.21"
tracing = "=0.1.44"
tracing-subscriber = "=0.3.23"
tower-http = { version = "=0.7.1", features = ["trace"] }
