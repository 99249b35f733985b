[package]
name = "capteur"
version = "0.1.0"
edition = "2021"
publish = false

[dependencies]
axum = "*"
chrono = { version = "*", features = ["serde"] }
serde = { version = "*", features = ["derive"] }
sqlx = { version = "*", default-features = false, features = ["runtime-tokio", "postgres", "chrono"] }
tokio = { version = "*", features = ["rt-multi-thread", "net", "macros"] }
tracing-subscriber = "*"
