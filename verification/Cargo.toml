[package]
name = "audit_agent"
version = "0.1.0"
edition = "2021"
publish = false

[dependencies]
axum = "0.8"
csv = "1"
reqwest = { version = "0.12", default-features = false, features = ["json", "rustls-tls"] }
serde = { version = "1", features = ["derive"] }
serde_json = "1"
tokio = { version = "1", features = ["macros", "rt-multi-thread", "net"] }
