[package]
name = "issue_tracker"
version = "0.1.0"
edition = "2021"
publish = false

[dependencies]
axum = "=0.8.9"
serde = { version = "=1.0.229", features = ["derive"] }
tokio = { version = "=1.54.1", features = ["macros", "rt-multi-thread", "net", "sync"] }
