[package]
name = "trampantojo"
version = "0.1.0"
edition = "2021"
publish = false

[dependencies]
regex = "=1.13.1"
sha2 = "=0.10.9"
hex = "=0.4.3"
ipnet = "=2.12.2"
chrono = { version = "=0.4.45", features = ["serde"] }
uuid = { version = "=1.29.0", features = ["v4", "serde"] }
serde = { version = "=1.0.229", features = ["derive"] }
serde_json = "=1.0.154"
anyhow = "=1.0.104"
async-trait = "=0.1.92"
axum = "=0.7.9"
tower-http = { version = "=0.5.2", features = ["trace"] }
tokio = { version = "=1.54.1", features = ["full"] }
tracing = "=0.1.44"
tracing-subscriber = { version = "=0.3.23", features = ["env-filter"] }
dotenvy = "=0.15.7"
redis = { version = "=0.25.5", features = ["tokio-comp", "connection-manager", "streams", "script"] }
reqwest = { version = "=0.12.28", default-features = false, features = ["json"] }
sqlx = { version = "=0.7.4", default-features = false, features = ["postgres", "runtime-tokio", "chrono", "uuid"] }
clickhouse = { version = "=0.15.3", features = ["uuid"] }
bcrypt = "=0.15.1"
