[package]
name = "digital_twin"
version = "0.1.0"
edition = "2021"
publish = false

[dependencies]
uuid = { version = "1", features = ["v4", "serde"] }
chrono = { version = "0.4", features = ["serde"] }
serde = { version = "1", features = ["derive"] }
serde_json = "1"
ammonia = "*"
base64 = "*"
thiserror = "*"
anyhow = "1"
async-trait = "*"
tracing = "*"
jsonschema = { version = "*", default-features = false }
validator = { version = "*", features = ["derive"] }
