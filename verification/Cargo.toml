[package]
name = "repos-toolbox-api"
version = "0.1.0"
edition = "2021"
publish = false

[dependencies]
serde_json = "=1.0.151"
serde = { version = "=1.0.229", features = ["derive"] }
axum = "=0.8.9"
octocrab = "=0.41.2"
reqwest = { version = "=0.12.28", default-features = false, features = ["json", "rustls-tls"] }
tower-http = { version = "=0.7.1", features = ["cors"] }
tracing = "=0.1.44"
tokio = { version = "=1.53.2", features = ["rt-multi-thread", "macros", "net"] }
