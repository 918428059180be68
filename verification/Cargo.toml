[package]
name = "image_proxy"
version = "0.1.0"
edition = "2021"
publish = false

[dependencies]
anyhow = "1"
axum = "0.6"
axum-extra = { version = "0.8", features = ["typed-routing"] }
clap = { version = "4", features = ["derive", "env"] }
dotenvy = "0.15"
http = "0.2"
lazy_static = "1"
reqwest = "0.11"
scraper = "*"
serde = { version = "1", features = ["derive"] }
tokio = { version = "1", features = ["full"] }
tower = "0.4"
tower-http = { version = "0.4", features = ["catch-panic", "cors", "request-id", "trace"] }
tracing = "0.1"
tracing-subscriber = { version = "0.3", features = ["env-filter"] }
ulid = "1"
url = "2"
