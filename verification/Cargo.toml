[package]
name = "axum_jwt"
version = "0.1.0"
edition = "2021"
publish = false

[dependencies]
jsonwebtoken = { version = "=11.1.0", features = ["rust_crypto"] }
serde = { version = "=1.0.229", features = ["derive"] }
serde_json = "=1.0.151"
http = "=1.5.0"
tower-layer = "=0.3.3"
tower-service = "=0.3.3"
axum-core = "=0.5.6"
pin-project-lite = "=0.2.17"
