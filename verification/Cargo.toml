[package]
name = "freshrss_image_cache_service_rs"
version = "0.1.0"
edition = "2021"
publish = false

[dependencies]
anyhow = "1"
axum = "0.7"
futures-util = "0.3"
hex = "0.4"
reqwest = { version = "0.12", features = ["stream"] }
serde = { version = "1", features = ["derive"] }
sha3 = "0.10"
tokio = { version = "1", features = ["full"] }
tracing = "0.1"
tracing-subscriber = { version = "0.3", features = ["env-filter"] }
url = { version = "2", features = ["serde"] }
