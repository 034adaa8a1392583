[package]
name = "peekaboo"
version = "0.1.0"
edition = "2021"
publish = false

[dependencies]
axum = "0.5"
handlebars = "4"
http = "0.2"
image = { version = "0.24", default-features = false, features = ["png"] }
num = "0.4"
redis = "0.21"
serde = { version = "1", features = ["derive"] }
tokio = { version = "1", features = ["full"] }
tower = { version = "0.4", features = ["timeout"] }
tower-http = { version = "0.3", features = ["add-extension", "compression-full", "set-header", "trace", "util"] }
tracing = "0.1"
tracing-subscriber = "0.3"
