[package]
name = "github_notification_service"
version = "0.1.0"
edition = "2021"
publish = false

[dependencies]
anyhow = "1"
async-trait = "0.1"
axum = "0.6"
dotenv = "0.15"
hex = "0.4"
hmac = "0.12"
lettre = { version = "0.10", default-features = false, features = ["builder", "hostname", "rustls-tls", "smtp-transport"] }
notify-rust = "4"
reqwest = { version = "0.11", default-features = false, features = ["json", "rustls-tls"] }
serde = { version = "1", features = ["derive"] }
serde_json = "1"
sha2 = "0.10"
tokio = { version = "1", features = ["full"] }
tower-http = { version = "0.4", features = ["trace"] }
tracing = "0.1"
tracing-subscriber = { version = "0.3", features = ["env-filter"] }
