[package]
name = "server_rs"
version = "0.1.0"
edition = "2021"
publish = false

[dependencies]
axum = { version = "=0.7.9", features = ["multipart", "ws"] }
axum-server = { version = "0.7", features = ["tls-rustls-no-provider"] }
base64 = "=0.22.1"
clap = { version = "=4.6.7", features = ["derive"] }
once_cell = "=1.21.4"
rcgen = { version = "=0.13.2", default-features = false, features = ["pem", "ring"] }
reqwest = { version = "=0.12.28", default-features = false, features = ["rustls-tls"] }
serde = { version = "=1.0.229", features = ["derive"] }
serde_json = "=1.0.154"
socketioxide = { version = "=0.14.1", features = ["state"] }
tokio = { version = "=1.54.1", features = ["full"] }
tower-http = { version = "=0.5.2", features = ["fs"] }
