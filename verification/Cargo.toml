[package]
name = "upload_server"
version = "0.1.0"
edition = "2021"
publish = false

[dependencies]
axum = { version = "=0.7.9", features = ["multipart"] }
axum-server = { version = "0.7", features = ["tls-rustls"] }
log = "0.4"
tokio = { version = "1", features = ["full"] }
