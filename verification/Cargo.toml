[package]
name = "image_converter"
version = "0.1.0"
edition = "2021"
publish = false

[dependencies]
anyhow = "1"
axum = "0.8"
libvips = "*"
serde = { version = "1", features = ["derive"] }
serde_json = "1"
thiserror = "*"
tikv-jemallocator = "*"
tokio = { version = "1", features = ["full"] }
tower = "0.5"
tower-http = { version = "0.6", features = ["compression-gzip", "compression-br", "cors", "timeout", "trace"] }
tracing = "0.1"
tracing-subscriber = { version = "0.3", features = ["env-filter"] }
