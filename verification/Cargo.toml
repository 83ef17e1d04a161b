[package]
name = "antigravity"
version = "0.1.0"
edition = "2021"
publish = false

[dependencies]
uuid = { version = "*", features = ["v4"] }
axum = { version = "*", features = ["ws"] }
tokio = { version = "*", features = ["full"] }
serde = { version = "*", features = ["derive"] }
serde_json = "*"
chrono = { version = "*", features = ["serde"] }
reqwest = { version = "*", default-features = false, features = ["json"] }
tower-http = { version = "*", features = ["cors", "trace"] }
tracing = "*"
tracing-subscriber = { version = "*", features = ["env-filter"] }
dotenvy = "*"
futures-util = "*"
anyhow = "*"
thiserror = "*"
