[package]
name = "composer_mirror"
version = "0.1.0"
edition = "2021"
publish = false

[dependencies]
serde_json = "=1.0.151"
glob = "=0.3.4"
axum = "=0.8.9"
tokio = { version = "=1.53.2", features = ["full"] }
reqwest = { version = "=0.12.4", default-features = false, features = ["json", "stream"] }
futures = "=0.3.34"
dotenv = "=0.15.0"
qiniu-sdk = { version = "=0.2.4", features = ["upload", "ureq", "async", "tokio1"] }
