[package]
name = "adapters"
version = "0.1.0"
edition = "2021"
publish = false

[dependencies]
log = "=0.4.35"
time = "=0.3.55"
argon2 = "=0.5.3"
serde = { version = "=1.0.229", features = ["derive"] }
serde_json = "=1.0.154"
thiserror = "=1.0.69"
anyhow = "=1.0.104"
async-trait = "=0.1.92"
tokio = { version = "=1.54.1", features = ["sync", "macros", "rt-multi-thread"] }
sqlx = { version = "=0.7.4", default-features = false, features = ["postgres", "runtime-tokio", "time", "macros"] }
sea-query = "=0.30.7"
axum = "=0.7.9"
http = "=1.5.0"
jsonwebtoken = "=9.3.1"
envy = "=0.4.2"
tracing = "=0.1.44"
