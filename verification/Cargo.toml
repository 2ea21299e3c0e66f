[package]
name = "startup"
version = "0.1.0"
edition = "2021"
publish = false

[dependencies]
rand = "0.8"
jsonwebtoken = "9"
serde = { version = "1", features = ["derive"] }
http = "0.2"
http-body = "0.4"
bytes = "1"
tower-service = "0.3"
tower-layer = "0.3"
opentelemetry = "*"
