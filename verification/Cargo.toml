[package]
name = "weather_exporter"
version = "0.1.0"
edition = "2021"
publish = false

[dependencies]
chrono = { version = "=0.4.45", features = ["serde"] }
urlencoding = "=2.1.3"
axum = "*"
tokio = { version = "*", features = ["macros", "rt-multi-thread", "time", "sync", "net"] }
reqwest = { version = "*", default-features = false, features = ["json"] }
prometheus = "*"
clap = { version = "*", features = ["derive", "env"] }
serde = { version = "*", features = ["derive"] }
anyhow = "*"
tracing = "*"
tracing-subscriber = "*"
