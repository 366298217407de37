[package]
name = "allforone"
version = "0.1.0"
edition = "2021"
publish = false

[dependencies]
anyhow = "1"
async-memcached = "=0.7.0"
axum = "=0.8.9"
axum-extra = { version = "=0.10.3", features = ["cookie"] }
base64 = "=0.22.1"
chrono = "=0.4.45"
cookie = "=0.18.2"
deadpool-memcached = "=0.5.0"
jsonwebtoken = "=9.3.1"
oauth2 = "=5.0.0"
reqwest = { version = "=0.12.28", features = ["json"] }
ring = "=0.17.14"
sea-orm = { version = "=1.1.20", default-features = false, features = ["macros", "with-chrono", "with-uuid", "sqlx-postgres", "runtime-tokio-rustls"] }
serde = { version = "1", features = ["derive"] }
serde_json = "=1.0.154"
sonic-rs = "=0.5.10"
thiserror = "2"
tokio = { version = "1", features = ["full"] }
toml = "=0.8.23"
tracing = "0.1"
tracing-subscriber = "0.3"
url = "=2.5.8"
uuid = { version = "=1.29.0", features = ["v7"] }
