[package]
name = "ivoirechain"
version = "0.1.0"
edition = "2021"
publish = false

[dependencies]
uuid = { version = "=1.29.1", features = ["v4", "serde"] }
chrono = { version = "=0.4.45", default-features = false, features = ["clock", "std", "serde"] }
hex = "=0.4.3"
serde = { version = "=1.0.229", features = ["derive"] }
serde_json = "=1.0.154"
async-trait = "=0.1.92"
tokio = { version = "=1.54.1", features = ["process", "time", "rt", "macros", "sync"] }
tracing = "=0.1.44"
thiserror = "=1.0.69"
axum = { version = "=0.7.9", default-features = false, features = ["json"] }
sqlx = { version = "=0.7.4", default-features = false, features = ["postgres", "runtime-tokio", "migrate", "macros", "uuid", "chrono"] }
redis = { version = "=0.25.5", default-features = false, features = ["aio", "tokio-comp", "connection-manager"] }
validator = { version = "=0.18.1", features = ["derive"] }
phonenumber = "=0.3.10"
