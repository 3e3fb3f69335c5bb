[package]
name = "database-introspection"
version = "0.1.0"
edition = "2021"
publish = false

[dependencies]
failure = "0.1.8"
serde = { version = "1", features = ["derive"] }

[dev-dependencies]
serde_json = "1"
