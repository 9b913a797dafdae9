[package]
name = "twitch_notifications"
version = "0.1.0"
edition = "2021"
publish = false

[dependencies]
anyhow = "=1.0.104"
async-trait = "=0.1.92"
axum = "=0.7.9"
chrono = { version = "=0.4.45", features = ["serde"] }
dotenvy = "=0.15.7"
hex = "=0.4.3"
hmac = "=0.12.1"
http = "=1.5.0"
jsonwebtoken = "=9.3.1"
lazy_static = "=1.5.1"
rand = "=0.8.8"
reqwest = { version = "=0.12.28", default-features = false, features = ["json", "rustls-tls"] }
serde = { version = "=1.0.229", features = ["derive"] }
serde_json = "=1.0.154"
sha2 = "=0.10.9"
sqlx = { version = "=0.8.6", default-features = false, features = ["runtime-tokio", "sqlite", "chrono", "macros"] }
takecell = "=0.1.1"
teloxide = { version = "=0.13.0", default-features = false, features = ["rustls"] }
thiserror = "=1.0.69"
tokio = { version = "=1.54.1", features = ["full"] }
tower_governor = "=0.4.3"
tower-http = { version = "=0.5.2", features = ["cors", "trace"] }
tracing = "=0.1.44"
tracing-subscriber = { version = "=0.3.23", features = ["env-filter"] }
url = "=2.5.8"
urlencoding = "=2.1.3"
uuid = { version = "=1.29.0", features = ["v4"] }
