[package]
name = "konnektoren_vc"
version = "0.1.0"
edition = "2021"
publish = false

[dependencies]
anyhow = "1"
axum = "0.6"
base64 = "0.21"
chrono = { version = "0.4", features = ["serde"] }
did-key = "0.2"
dotenv = "0.15"
futures = "0.3"
hyper = "0.14"
image = { version = "0.24", default-features = false, features = ["png"] }
jsonwebtoken = "9"
lazy_static = "1"
log = "0.4"
oid4vci = "0.1.0"
qrcodegen = "1.8"
serde = { version = "1", features = ["derive"] }
serde_json = "1"
tokio = { version = "1", features = ["full"] }
tower-http = { version = "0.4", features = ["trace", "fs"] }
tracing = "0.1"
url = "2"
urlencoding = "2"
uuid = { version = "1", features = ["v4"] }
