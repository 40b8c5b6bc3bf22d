[package]
name = "gem_rs"
version = "0.1.0"
edition = "2021"
publish = false

[dependencies]
base64 = "=0.23.1"
futures = "=0.3.34"
log = "=0.4.34"
pretty_env_logger = "=0.5.0"
reqwest = { version = "=0.13.5", features = ["json", "query", "stream"] }
serde = { version = "=1.0.229", features = ["derive"] }
serde_json = "=1.0.154"

[dev-dependencies]
bytes = "1"
reqwest-streams = { version = "=0.20.0", default-features = false, features = ["json"] }
tokio-util = { version = "0.7", features = ["codec"] }
