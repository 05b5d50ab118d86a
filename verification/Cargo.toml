[package]
name = "axum_extractor_config"
version = "0.1.0"
edition = "2021"
publish = false

[dependencies]
axum = "0.5"
futures-util = "0.3"
serde = "1"
serde_json = "1"
tower-layer = "0.3"
tower-service = "0.3"
