[package]
name = "tex"
version = "0.1.0"
edition = "2021"
publish = false

[dependencies]
anyhow = "1"
axum = "0.7"
base64 = "0.22"
hmac = "0.12"
sha2 = "0.10"
thiserror = "1"
tokio = { version = "1", features = ["full"] }
