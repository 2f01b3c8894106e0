[package]
name = "auth_core"
version = "0.1.0"
edition = "2021"
publish = false

[dependencies]
anyhow = "=1.0.104"
argon2 = "=0.5.3"
chrono = "=0.4.45"
clap = { version = "=4.6.7", features = ["derive", "env"] }
hmac = "=0.12.1"
jwt = "=0.16.0"
poem = "=3.1.12"
poem-openapi = { version = "=5.1.16", features = ["chrono", "scalar"] }
rand = "=0.9.5"
sea-orm = { version = "=1.1.20", default-features = false, features = ["macros", "sqlx-mysql", "runtime-tokio-rustls", "with-chrono"] }
serde = { version = "=1.0.229", features = ["derive"] }
serde_json = "=1.0.154"
sha2 = "=0.10.9"
thiserror = "=2.0.21"
tokio = { version = "=1.54.1", features = ["macros", "rt-multi-thread"] }
tracing = "=0.1.44"
tracing-subscriber = "=0.3.23"
