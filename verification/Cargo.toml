[package]
name = "chronicle"
version = "0.1.0"
edition = "2021"
publish = false

[dependencies]
base64 = "=0.22.1"
dirs = "=5.0.1"
reqwest = { version = "=0.12.28", default-features = false, features = ["blocking", "json", "default-tls"] }
serde = { version = "=1.0.229", features = ["derive"] }
serde_json = "=1.0.154"

[dev-dependencies]
regex = "1"
