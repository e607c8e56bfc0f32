[package]
name = "snippet_store"
version = "0.1.0"
edition = "2021"
publish = false

[dependencies]
serde_json = "=1.0.154"
serde = { version = "=1.0.229", features = ["derive"] }
rusqlite = { version = "=0.31.0", features = ["bundled"] }
anyhow = "=1.0.104"
chrono = "=0.4.45"
clap = { version = "4", features = ["derive"] }
reqwest = { version = "0.12", default-features = false, features = ["blocking", "rustls-tls"] }
tracing = "0.1"
tracing-subscriber = { version = "0.3", features = ["env-filter"] }
