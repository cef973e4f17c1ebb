[package]
name = "mas_router"
version = "0.1.0"
edition = "2021"
publish = false

[dependencies]
anyhow = "=1.0.104"
async-graphql = { version = "=7.2.1", features = ["chrono"] }
axum = "=0.8.9"
chrono = "=0.4.45"
clap = { version = "=4.6.7", features = ["derive"] }
futures = "=0.3.34"
opentelemetry = { version = "=0.17.0", features = ["metrics", "rt-tokio"] }
opentelemetry-semantic-conventions = "=0.9.0"
serde = { version = "=1.0.229", features = ["derive"] }
serde_yaml = "0.9"
tokio = { version = "=1.54.1", features = ["rt", "rt-multi-thread", "time", "macros"] }
tracing = { version = "=0.1.44", features = ["log"] }
url = { version = "=2.5.8", features = ["serde"] }
