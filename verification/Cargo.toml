[package]
name = "linkml_schema"
version = "0.1.0"
edition = "2021"
publish = false

[dependencies]
indexmap = "2"
dashmap = "6"
url = "2"
serde = { version = "1", features = ["derive"] }
serde_json = "1"
serde_yaml = "0.9"
tokio = { version = "1", features = ["fs", "rt"] }
reqwest = { version = "0.12", default-features = false }

[dev-dependencies]
regex = "1"
