[package]
name = "relnotes"
version = "0.1.0"
edition = "2021"
publish = false

[dependencies]
markdown = "=1.0.0"
uluru = "=3.1.0"
serde = { version = "=1.0.229", features = ["derive"] }
tokio = { version = "=1.53.2", features = ["macros", "rt-multi-thread", "net", "sync"] }
axum = "=0.8.9"
octocrab = "=0.41.2"
