[package]
name = "issue_fetcher"
version = "0.1.0"
edition = "2021"
publish = false

[dependencies]
lambda_runtime = "=1.4.0"
octocrab = "=0.47.1"
reqwest = { version = "=0.12.28", default-features = false, features = ["json", "rustls-tls"] }
serde = { version = "=1.0.229", features = ["derive"] }
serde_json = "=1.0.151"
tokio = { version = "=1.53.2", features = ["macros", "rt-multi-thread"] }
