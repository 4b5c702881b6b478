[package]
name = "cli_framework"
version = "0.1.0"
edition = "2021"
publish = false

[dependencies]
semver = "=1.0.28"
regex = "=1.13.1"
sha2 = "=0.10.9"
minisign-verify = "=0.2.5"
serde = { version = "=1.0.229", features = ["derive"] }
serde_json = "=1.0.154"
thiserror = "=1.0.69"
anyhow = "=1.0.104"
uuid = { version = "=1.29.0", features = ["v4"] }
dirs = "=5.0.1"
tar = "=0.4.46"
flate2 = "=1.1.10"
zip = { version = "=9.2.2", default-features = false, features = ["deflate"] }
opentelemetry = { version = "*", default-features = false, features = ["trace"] }
opentelemetry_sdk = { version = "*", default-features = false, features = ["trace"] }
